//! Device descriptions, platform detection, system information and digests.

use kwite::devices::{AudioDeviceInfo, DeviceError};
use kwite::digest::{hash_identifier, sha256_hex_bytes, verify_checksum};
use kwite::system_info::SystemInfo;
use kwite::textfmt::{contains_bytes, decimal_string, to_lower_bytes};
use kwite::virtual_audio::{
    detect_os, detect_virtual_device_type, get_virtual_audio_info, has_virtual_devices,
    OperatingSystem,
};

#[test]
fn test_audio_device_info_display() {
    let device = AudioDeviceInfo {
        id: "test_id".to_string(),
        name: "Test Device".to_string(),
        is_default: true,
        is_virtual: false,
    };

    let display_str = device.display_string();
    assert!(display_str.contains("Test Device"));
    assert!(display_str.contains("(Default)"), "Default device should show (Default) suffix");
}

#[test]
fn test_audio_device_info_display_virtual() {
    let device = AudioDeviceInfo {
        id: "test_id".to_string(),
        name: "Virtual Device".to_string(),
        is_default: false,
        is_virtual: true,
    };

    let display_str = device.display_string();
    assert!(display_str.contains("Virtual Device"));
    assert!(display_str.contains("(Virtual)"), "Virtual device should show (Virtual) suffix");
}

#[test]
fn test_audio_device_info_display_regular() {
    let device = AudioDeviceInfo {
        id: "test_id".to_string(),
        name: "Regular Device".to_string(),
        is_default: false,
        is_virtual: false,
    };

    let display_str = device.display_string();
    assert_eq!(display_str, "Regular Device");
    assert!(!display_str.contains("(Default)"));
    assert!(!display_str.contains("(Virtual)"));
}

#[test]
fn test_audio_device_info_clone() {
    let device = AudioDeviceInfo {
        id: "test_id".to_string(),
        name: "Test Device".to_string(),
        is_default: false,
        is_virtual: true,
    };

    let cloned = device.clone();
    assert_eq!(device.id, cloned.id);
    assert_eq!(device.name, cloned.name);
    assert_eq!(device.is_default, cloned.is_default);
    assert_eq!(device.is_virtual, cloned.is_virtual);
}

#[test]
fn virtual_audio_test_os_detection() {
    let os = detect_os("linux");
    assert!(matches!(
        os,
        OperatingSystem::Windows | OperatingSystem::MacOS | OperatingSystem::Linux
            | OperatingSystem::Unknown
    ));
    assert_eq!(detect_os("windows"), OperatingSystem::Windows);
    assert_eq!(detect_os("macos"), OperatingSystem::MacOS);
    assert_eq!(detect_os("linux"), OperatingSystem::Linux);
    assert_eq!(detect_os("freebsd"), OperatingSystem::Unknown);
}

#[test]
fn virtual_audio_test_virtual_device_detection() {
    assert_eq!(detect_virtual_device_type("VB-Audio Cable"), Some("VB-Audio Cable"));
    assert_eq!(detect_virtual_device_type("VB-Cable Input"), Some("VB-Audio Cable"));
    assert_eq!(detect_virtual_device_type("VB-Cable Output"), Some("VB-Audio Cable"));
    assert_eq!(detect_virtual_device_type("BlackHole 2ch"), Some("BlackHole"));
    assert_eq!(detect_virtual_device_type("Null Output"), Some("PulseAudio Null Sink"));
    assert_eq!(detect_virtual_device_type("Regular Speakers"), None);
}

#[test]
fn test_more_virtual_device_patterns() {
    assert_eq!(detect_virtual_device_type("Voicemeeter Out A1"), Some("Voicemeeter"));
    assert_eq!(detect_virtual_device_type("Soundflower (2ch)"), Some("Soundflower"));
    assert_eq!(detect_virtual_device_type("Loopback Audio"), Some("Loopback"));
    assert_eq!(detect_virtual_device_type("Monitor of Built-in"), Some("PulseAudio Monitor"));
    assert_eq!(detect_virtual_device_type("My Virtual Thing"), Some("Virtual Audio Device"));
}

#[test]
fn test_virtual_audio_info_per_platform() {
    let windows = get_virtual_audio_info(&OperatingSystem::Windows);
    assert_eq!(windows.name, "VB-Audio Cable");
    assert_eq!(windows.setup_instructions.len(), 5);
    let macos = get_virtual_audio_info(&OperatingSystem::MacOS);
    assert_eq!(macos.setup_instructions.len(), 10);
    let linux = get_virtual_audio_info(&OperatingSystem::Linux);
    assert_eq!(linux.name, "PulseAudio Virtual Sink");
    assert_eq!(linux.download_url, "");
    let unknown = get_virtual_audio_info(&OperatingSystem::Unknown);
    assert_eq!(unknown.name, "Virtual Audio Device");
}

#[test]
fn test_has_virtual_devices() {
    let devices = vec![
        AudioDeviceInfo {
            id: "output_0".to_string(),
            name: "Speakers".to_string(),
            is_default: true,
            is_virtual: false,
        },
        AudioDeviceInfo {
            id: "output_1".to_string(),
            name: "BlackHole 2ch".to_string(),
            is_default: false,
            is_virtual: true,
        },
    ];
    assert!(has_virtual_devices(&devices));
    let plain = vec![AudioDeviceInfo {
        id: "output_0".to_string(),
        name: "Speakers".to_string(),
        is_default: true,
        is_virtual: false,
    }];
    assert!(!has_virtual_devices(&plain));
    let empty: Vec<AudioDeviceInfo> = Vec::new();
    assert!(!has_virtual_devices(&empty));
}

#[test]
fn system_info_test_os_detection() {
    for os in [
        OperatingSystem::Windows,
        OperatingSystem::MacOS,
        OperatingSystem::Linux,
        OperatingSystem::Unknown,
    ] {
        let os_name = SystemInfo::get_os_name(&os);
        assert!(
            os_name == "Windows" || os_name == "macOS" || os_name == "Linux"
                || os_name == "Unknown"
        );
    }
}

#[test]
fn test_cpu_core_count() {
    assert!(SystemInfo::get_cpu_cores() >= 1);
}

#[test]
fn test_wan_ip_validation() {
    assert!(SystemInfo::is_valid_wan_ip("8.8.8.8"));
    assert!(SystemInfo::is_valid_wan_ip("203.0.113.7"));
    assert!(!SystemInfo::is_valid_wan_ip("10.0.0.1"));
    assert!(!SystemInfo::is_valid_wan_ip("172.16.0.1"));
    assert!(!SystemInfo::is_valid_wan_ip("192.168.1.1"));
    assert!(!SystemInfo::is_valid_wan_ip("127.0.0.1"));
    assert!(!SystemInfo::is_valid_wan_ip("0.0.0.0"));
    assert!(!SystemInfo::is_valid_wan_ip(""));
    assert!(!SystemInfo::is_valid_wan_ip("unknown"));
    assert!(!SystemInfo::is_valid_wan_ip("256.1.1.1"));
    assert!(!SystemInfo::is_valid_wan_ip("1.2.3"));
    assert!(!SystemInfo::is_valid_wan_ip("1.2.3.4.5"));
    assert!(!SystemInfo::is_valid_wan_ip("1..2.3"));
}

#[test]
fn test_system_info_rendering() {
    let info = SystemInfo {
        os_name: "Linux".to_string(),
        os_version: "6.1".to_string(),
        architecture: "x86_64".to_string(),
        total_memory_mb: 16384,
        available_memory_mb: 8192,
        cpu_model: "Test CPU".to_string(),
        cpu_cores: 8,
        mac_address_hash: "abc123".to_string(),
        ip_address: "8.8.8.8".to_string(),
        collected_at: "2024-01-01T00:00:00+00:00".to_string(),
    };
    let line = info.to_log_string();
    assert!(line.contains("Linux"));
    assert!(line.contains("8192MB/16384MB"));
    assert!(line.contains("8 cores"));
    let fields = info.to_fields();
    assert_eq!(fields.len(), 10);
    assert!(fields.iter().any(|(k, v)| k == "os_name" && v == "Linux"));
    assert!(fields.iter().any(|(k, v)| k == "cpu_cores" && v == "8"));
    assert!(fields.iter().any(|(k, v)| k == "ip_address" && v == "8.8.8.8"));
}

#[test]
fn test_sha256_known_digest() {
    // SHA-256 of "abc" is a published test vector; a wrapper that handed
    // its input back unchanged could not produce it.
    let data: Vec<u8> = vec![97, 98, 99];
    let hex = sha256_hex_bytes(&data);
    let hex_str = String::from_utf8(hex).expect("hex output is ASCII");
    assert_eq!(
        hex_str,
        "ba7816bf8f01cfea414140de5dae2223b00361a396177a9cb410ff61f20015ad"
    );
}

#[test]
fn test_verify_checksum_case_insensitive() {
    let data: Vec<u8> = vec![97, 98, 99];
    assert!(verify_checksum(
        &data,
        "ba7816bf8f01cfea414140de5dae2223b00361a396177a9cb410ff61f20015ad"
    ));
    assert!(verify_checksum(
        &data,
        "BA7816BF8F01CFEA414140DE5DAE2223B00361A396177A9CB410FF61F20015AD"
    ));
    assert!(!verify_checksum(
        &data,
        "0000000000000000000000000000000000000000000000000000000000000000"
    ));
    assert!(!verify_checksum(&data, "not-a-checksum"));
}

#[test]
fn test_hash_identifier_shape() {
    let a = hash_identifier("aa:bb:cc:dd:ee:ff");
    let b = hash_identifier("aa:bb:cc:dd:ee:00");
    assert_eq!(a.len(), 64);
    assert_eq!(b.len(), 64);
    assert_ne!(a, b);
    assert!(a.iter().all(|&c| (48..=57).contains(&c) || (97..=102).contains(&c)));
}

#[test]
fn test_decimal_rendering() {
    assert_eq!(decimal_string(0), "0");
    assert_eq!(decimal_string(7), "7");
    assert_eq!(decimal_string(48000), "48000");
    assert_eq!(decimal_string(18_446_744_073_709_551_615), "18446744073709551615");
}

#[test]
fn test_byte_search_and_folding() {
    let lower = to_lower_bytes("VB-Audio CABLE");
    assert_eq!(lower, b"vb-audio cable".to_vec());
    assert!(contains_bytes(&lower, "audio"));
    assert!(!contains_bytes(&lower, "AUDIO"));
    let unicode = to_lower_bytes("Caf\u{00e9} MIC");
    assert!(contains_bytes(&unicode, "mic"));
}

#[test]
fn test_device_error_messages() {
    assert_eq!(DeviceError::InputDeviceNotFound.message(), "selected input device not found");
    assert_eq!(DeviceError::OutputDeviceNotFound.message(), "selected output device not found");
    assert_eq!(
        DeviceError::UnsupportedConfiguration.message(),
        "unsupported capture configuration"
    );
}
