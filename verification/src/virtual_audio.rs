//! Virtual audio device guidance: platform detection, setup information,
//! and recognition of virtual devices by name.

use vstd::prelude::*;
use vstd::string::StringSliceAdditionalSpecFns;
use crate::devices::AudioDeviceInfo;
use crate::textfmt::{contains_bytes, spec_contains, spec_lower_bytes, to_lower_bytes};

verus! {

/// The platform the application runs on.
#[derive(Debug, Clone, Copy, PartialEq, Eq, Structural)]
pub enum OperatingSystem {
    Windows,
    MacOS,
    Linux,
    Unknown,
}

impl OperatingSystem {
    /// The display name of the platform.
    pub fn display_name(&self) -> (r: &'static str)
        ensures
            r@ == match self {
                OperatingSystem::Windows => "Windows"@,
                OperatingSystem::MacOS => "macOS"@,
                OperatingSystem::Linux => "Linux"@,
                OperatingSystem::Unknown => "Unknown OS"@,
            },
    {
        match self {
            OperatingSystem::Windows => "Windows",
            OperatingSystem::MacOS => "macOS",
            OperatingSystem::Linux => "Linux",
            OperatingSystem::Unknown => "Unknown OS",
        }
    }
}

/// UTF-8 byte equality of two strings.
#[verifier::loop_isolation(false)]
fn bytes_eq(a: &str, b: &str) -> (r: bool)
    ensures
        r == (a.spec_bytes() =~= b.spec_bytes()),
{
    let ab = a.as_bytes();
    let bb = b.as_bytes();
    if ab.len() != bb.len() {
        return false;
    }
    let mut i: usize = 0;
    while i < ab.len()
        invariant
            i <= ab@.len(),
            ab@.len() == bb@.len(),
            forall|k: int| 0 <= k < i ==> #[trigger] ab@[k] == bb@[k],
        decreases ab@.len() - i,
    {
        if ab[i] != bb[i] {
            return false;
        }
        i = i + 1;
    }
    proof {
        assert(ab@ =~= bb@);
    }
    true
}

/// Map a platform label (as `std::env::consts::OS` reports it) to the
/// platform it names.
pub fn detect_os(os_label: &str) -> (r: OperatingSystem)
    ensures
        r == (if os_label.spec_bytes() =~= "windows".spec_bytes() {
            OperatingSystem::Windows
        } else if os_label.spec_bytes() =~= "macos".spec_bytes() {
            OperatingSystem::MacOS
        } else if os_label.spec_bytes() =~= "linux".spec_bytes() {
            OperatingSystem::Linux
        } else {
            OperatingSystem::Unknown
        }),
{
    if bytes_eq(os_label, "windows") {
        OperatingSystem::Windows
    } else if bytes_eq(os_label, "macos") {
        OperatingSystem::MacOS
    } else if bytes_eq(os_label, "linux") {
        OperatingSystem::Linux
    } else {
        OperatingSystem::Unknown
    }
}

/// Installation guidance for one platform's virtual audio device.
#[derive(Debug, Clone)]
pub struct VirtualAudioInfo {
    /// The device or mechanism to install.
    pub name: &'static str,
    /// Where to download it (empty when built into the platform).
    pub download_url: &'static str,
    /// A one-line description.
    pub description: &'static str,
    /// Step-by-step setup instructions.
    pub setup_instructions: Vec<&'static str>,
}

/// The virtual audio setup recommended on each platform.
pub fn get_virtual_audio_info(os: &OperatingSystem) -> (r: VirtualAudioInfo)
    ensures
        match os {
            OperatingSystem::Windows => r.name@ == "VB-Audio Cable"@ && r.download_url@
                == "https://www.vb-audio.com/Cable/"@ && r.setup_instructions@.len() == 5,
            OperatingSystem::MacOS => r.name@ == "VB-Audio Cable"@ && r.download_url@
                == "https://www.vb-audio.com/Cable/"@ && r.setup_instructions@.len() == 10,
            OperatingSystem::Linux => r.name@ == "PulseAudio Virtual Sink"@ && r.download_url@
                == ""@ && r.setup_instructions@.len() == 6,
            OperatingSystem::Unknown => r.name@ == "Virtual Audio Device"@ && r.download_url@
                == ""@ && r.setup_instructions@.len() == 5,
        },
{
    match os {
        OperatingSystem::Windows => {
            let mut steps: Vec<&'static str> = Vec::new();
            steps.push("1. Download VB-Audio Cable from the official website");
            steps.push("2. Run the installer as Administrator");
            steps.push("3. Restart your computer after installation");
            steps.push(
                "4. In Windows Sound settings, set 'CABLE Input' as your default playback device in Discord/Teams",
            );
            steps.push("5. Restart the application to detect the new virtual device");
            VirtualAudioInfo {
                name: "VB-Audio Cable",
                download_url: "https://www.vb-audio.com/Cable/",
                description:
                    "Virtual Audio Cable for Windows - Creates virtual audio devices for routing audio between applications",
                setup_instructions: steps,
            }
        },
        OperatingSystem::MacOS => {
            let mut steps: Vec<&'static str> = Vec::new();
            steps.push("1. Download VB-Audio Cable from the official website");
            steps.push(
                "2. Install the .pkg file (you may need to allow installation in Security preferences)",
            );
            steps.push("3. Open Audio MIDI Setup (found in /Applications/Utilities/)");
            steps.push("4. Select VB-Cable in the device list");
            steps.push(
                "5. IMPORTANT: Set Format to 48000.0 Hz, 32-bit Float for optimal noise cancellation",
            );
            steps.push("6. Create a Multi-Output Device including VB-Cable + your speakers");
            steps.push("7. Set VB-Cable as input device in your communication apps");
            steps.push("8. Set the Multi-Output Device as your system output (for monitoring)");
            steps.push("9. Select VB-Cable as both input and output device");
            steps.push(
                "10. Restart the application to detect the properly configured virtual device",
            );
            VirtualAudioInfo {
                name: "VB-Audio Cable",
                download_url: "https://www.vb-audio.com/Cable/",
                description:
                    "VB-Audio Cable for macOS - Virtual Audio Cable for creating virtual audio devices",
                setup_instructions: steps,
            }
        },
        OperatingSystem::Linux => {
            let mut steps: Vec<&'static str> = Vec::new();
            steps.push("1. Open a terminal");
            steps.push(
                "2. Create a null sink: pactl load-module module-null-sink sink_name=cleaned_output",
            );
            steps.push(
                "3. Create a loopback from your mic: pactl load-module module-loopback source=<your_mic> sink=cleaned_output",
            );
            steps.push("4. Find your mic name with: pactl list sources short");
            steps.push("5. Use pavucontrol to manage virtual devices graphically");
            steps.push("6. Restart the application to detect the new virtual device");
            VirtualAudioInfo {
                name: "PulseAudio Virtual Sink",
                download_url: "",
                description:
                    "PulseAudio virtual sink - Use built-in PulseAudio features to create virtual audio devices",
                setup_instructions: steps,
            }
        },
        OperatingSystem::Unknown => {
            let mut steps: Vec<&'static str> = Vec::new();
            steps.push("1. Virtual audio setup depends on your operating system");
            steps.push("2. Windows: Install VB-Audio Cable");
            steps.push("3. macOS: Install VB-Audio Cable");
            steps.push("4. Linux: Use PulseAudio virtual sinks");
            steps.push("5. Consult the documentation for your OS");
            VirtualAudioInfo {
                name: "Virtual Audio Device",
                download_url: "",
                description: "Virtual audio setup varies by operating system",
                setup_instructions: steps,
            }
        },
    }
}

/// Whether any enumerated output device is a virtual one.
#[verifier::loop_isolation(false)]
pub fn has_virtual_devices(output_devices: &Vec<AudioDeviceInfo>) -> (r: bool)
    ensures
        r == exists|i: int|
            0 <= i < output_devices@.len() && (#[trigger] output_devices@[i]).is_virtual,
{
    let mut i: usize = 0;
    while i < output_devices.len()
        invariant
            i <= output_devices@.len(),
            forall|k: int| 0 <= k < i ==> !(#[trigger] output_devices@[k]).is_virtual,
        decreases output_devices@.len() - i,
    {
        if output_devices[i].is_virtual {
            return true;
        }
        i = i + 1;
    }
    false
}

/// Which known virtual audio device a name refers to, judged on the
/// case-folded name's contents.
pub open spec fn spec_virtual_device_type(l: Seq<u8>) -> Option<&'static str> {
    if spec_contains(l, "vb-audio".spec_bytes()) || spec_contains(l, "vb-cable".spec_bytes()) || (
    spec_contains(l, "cable".spec_bytes()) && (spec_contains(l, "input".spec_bytes())
        || spec_contains(l, "output".spec_bytes()))) {
        Some("VB-Audio Cable")
    } else if spec_contains(l, "voicemeeter".spec_bytes()) {
        Some("Voicemeeter")
    } else if spec_contains(l, "blackhole".spec_bytes()) {
        Some("BlackHole")
    } else if spec_contains(l, "soundflower".spec_bytes()) {
        Some("Soundflower")
    } else if spec_contains(l, "loopback".spec_bytes()) {
        Some("Loopback")
    } else if spec_contains(l, "null".spec_bytes()) {
        Some("PulseAudio Null Sink")
    } else if spec_contains(l, "monitor".spec_bytes()) {
        Some("PulseAudio Monitor")
    } else if spec_contains(l, "virtual".spec_bytes()) {
        Some("Virtual Audio Device")
    } else {
        None
    }
}

/// Recognize a virtual audio device from its name, case-insensitively.
pub fn detect_virtual_device_type(device_name: &str) -> (r: Option<&'static str>)
    ensures
        r == spec_virtual_device_type(spec_lower_bytes(device_name.spec_bytes())),
{
    let lower = to_lower_bytes(device_name);
    if contains_bytes(&lower, "vb-audio") || contains_bytes(&lower, "vb-cable") || (contains_bytes(
        &lower,
        "cable",
    ) && (contains_bytes(&lower, "input") || contains_bytes(&lower, "output"))) {
        Some("VB-Audio Cable")
    } else if contains_bytes(&lower, "voicemeeter") {
        Some("Voicemeeter")
    } else if contains_bytes(&lower, "blackhole") {
        Some("BlackHole")
    } else if contains_bytes(&lower, "soundflower") {
        Some("Soundflower")
    } else if contains_bytes(&lower, "loopback") {
        Some("Loopback")
    } else if contains_bytes(&lower, "null") {
        Some("PulseAudio Null Sink")
    } else if contains_bytes(&lower, "monitor") {
        Some("PulseAudio Monitor")
    } else if contains_bytes(&lower, "virtual") {
        Some("Virtual Audio Device")
    } else {
        None
    }
}

} // verus!
