//! Update checking decisions and the buffered remote logger.

use kwite::auto_update::{
    format_duration, format_file_size, format_speed, AutoUpdateConfig, AutoUpdateManager,
    DownloadProgress, UpdateCheckResult, UpdateInfo,
};
use kwite::constants::{DEFAULT_LOG_BATCH_SIZE, PERFORMANCE_ENDPOINT};
use kwite::remote_logging::{
    flush_remote_logs, init_remote_logger, log_remote, remote_log_buffer_size, AppInfo, LogBatch,
    LogEntry, RemoteLogger, RemoteLoggingConfig,
};

#[test]
fn test_version_parsing() {
    let manager = AutoUpdateManager::new(AutoUpdateConfig::default());

    assert_eq!(manager.parse_version("1.2.3").unwrap(), (1, 2, 3));
    assert_eq!(manager.parse_version("v2.0.0").unwrap(), (2, 0, 0));
    assert_eq!(manager.parse_version("0.1").unwrap(), (0, 1, 0));
    assert_eq!(manager.parse_version("5").unwrap(), (5, 0, 0));

    assert!(manager.parse_version("invalid").is_err());
}

#[test]
fn test_version_parsing_ignores_extra_components() {
    let manager = AutoUpdateManager::new(AutoUpdateConfig::default());
    assert_eq!(manager.parse_version("1.2.3.4").unwrap(), (1, 2, 3));
    assert!(manager.parse_version("1..2").is_err());
    assert!(manager.parse_version("").is_err());
    assert!(manager.parse_version("1.2.x").is_err());
}

#[test]
fn test_version_comparison() {
    let manager = AutoUpdateManager::new(AutoUpdateConfig::default());

    assert!(manager.is_newer_version("1.0.1"));  // Current is 0.1.0
    assert!(!manager.is_newer_version("0.0.9")); // Older version
    assert!(!manager.is_newer_version("0.1.0")); // Same version
    assert!(!manager.is_newer_version("garbage"));
}

#[test]
fn test_update_check_timing() {
    let config = AutoUpdateConfig {
        enabled: true,
        check_interval_hours: 24,
        ..AutoUpdateConfig::default()
    };

    let mut manager = AutoUpdateManager::new(config);
    assert!(manager.is_check_due(1_000_000)); // Never checked before

    manager.record_check(1_000_000);
    assert!(!manager.is_check_due(1_000_000)); // Just checked
    assert!(!manager.is_check_due(1_000_000 + 3600)); // One hour later
    assert!(manager.is_check_due(1_000_000 + 24 * 3600)); // A day later
    assert_eq!(manager.last_check_time(), Some(1_000_000));
}

#[test]
fn test_disabled_updates() {
    let config = AutoUpdateConfig {
        enabled: false,
        ..AutoUpdateConfig::default()
    };

    let manager = AutoUpdateManager::new(config);
    assert!(!manager.is_check_due(1_000_000));
}

#[test]
fn test_file_size_formatting() {
    assert_eq!(format_file_size(512), "512 B");
    assert_eq!(format_file_size(1536), "1.5 KB");
    assert_eq!(format_file_size(2097152), "2.0 MB");
    assert_eq!(format_file_size(3221225472), "3.0 GB");
}

#[test]
fn test_speed_formatting() {
    assert_eq!(format_speed(512), "512 B/s");
    assert_eq!(format_speed(1536), "1.5 KB/s");
}

#[test]
fn test_duration_formatting() {
    assert_eq!(format_duration(30), "30s");
    assert_eq!(format_duration(90), "1m 30s");
    assert_eq!(format_duration(3665), "1h 1m");
}

#[test]
fn test_update_types_carry_their_data() {
    let info = UpdateInfo {
        version: "1.2.3".to_string(),
        release_date: "2024-01-01".to_string(),
        download_url: "https://example.invalid/update".to_string(),
        file_size: 1536,
        checksum: "ba7816bf".to_string(),
        release_notes: "fixes".to_string(),
        is_critical: false,
        min_version: None,
    };
    let result = UpdateCheckResult::UpdateAvailable(info.clone());
    match result {
        UpdateCheckResult::UpdateAvailable(u) => assert_eq!(u.version, "1.2.3"),
        UpdateCheckResult::NoUpdate | UpdateCheckResult::Error(_) => {
            panic!("expected an available update")
        },
    }
    let progress = DownloadProgress { downloaded: 10, total: 100, speed_bps: 5, eta_seconds: 18 };
    assert_eq!(progress.total, 100);
}

#[test]
fn test_remote_logging_config_default() {
    let config = RemoteLoggingConfig::default();
    assert!(!config.enabled); // Should be disabled by default
    assert_eq!(config.endpoint, PERFORMANCE_ENDPOINT);
    assert_eq!(config.batch_size, DEFAULT_LOG_BATCH_SIZE);
}

#[test]
fn test_log_entry_creation() {
    let entry = LogEntry {
        timestamp: "2024-01-01T00:00:00+00:00".to_string(),
        level: "info".to_string(),
        message: "Test message".to_string(),
        source: Some("test_module".to_string()),
        fields: Vec::new(),
    };

    assert_eq!(entry.level, "info");
    assert_eq!(entry.message, "Test message");
    assert_eq!(entry.source, Some("test_module".to_string()));
}

#[test]
fn test_remote_logger_disabled() {
    let config = RemoteLoggingConfig {
        enabled: false,
        ..RemoteLoggingConfig::default()
    };

    let mut logger = RemoteLogger::new(config, None, 0);
    assert_eq!(logger.buffer_size(), 0);

    // Logging should be ignored when disabled.
    logger.log("info", "test", None, Vec::new());
    assert_eq!(logger.buffer_size(), 0);
    assert!(logger.flush(10).is_none());
}

#[test]
fn test_remote_logger_buffering() {
    let config = RemoteLoggingConfig {
        enabled: true,
        batch_size: 10,
        ..RemoteLoggingConfig::default()
    };

    let mut logger = RemoteLogger::new(config, None, 0);

    logger.log("info", "test message", None, Vec::new());
    assert_eq!(logger.buffer_size(), 1);
}

#[test]
fn test_remote_logger_flush_drains_buffer() {
    let config = RemoteLoggingConfig {
        enabled: true,
        batch_size: 2,
        ..RemoteLoggingConfig::default()
    };
    let mut logger = init_remote_logger(config, None, 100);
    log_remote(&mut logger, "info", "one", Some("here"), Vec::new());
    log_remote(&mut logger, "warn", "two", None, Vec::new());
    assert_eq!(remote_log_buffer_size(&logger), 2);
    assert!(logger.should_flush(100));
    let batch = flush_remote_logs(&mut logger, 200).expect("a batch leaves");
    assert_eq!(batch.logs.len(), 2);
    assert_eq!(batch.logs[0].message, "one");
    assert_eq!(batch.logs[1].message, "two");
    assert!(batch.session_id.starts_with("kwite_100_"));
    assert_eq!(remote_log_buffer_size(&logger), 0);
}

#[test]
fn test_app_info_default() {
    let app_info = AppInfo::default();
    assert_eq!(app_info.name, "Kwite");
    assert!(!app_info.version.is_empty());
    assert!(!app_info.build_target.is_empty());
}

#[test]
fn test_log_batch_size_estimation() {
    let mut logs: Vec<LogEntry> = Vec::new();
    for i in 0..10 {
        logs.push(LogEntry {
            timestamp: "2024-01-01T00:00:00+00:00".to_string(),
            level: "info".to_string(),
            message: format!("Test message {}", i),
            source: Some("test_module".to_string()),
            fields: Vec::new(),
        });
    }

    let batch = LogBatch {
        app_info: AppInfo::default(),
        system_info: None,
        logs,
        batch_timestamp: "2024-01-01T00:00:00+00:00".to_string(),
        session_id: "test_session".to_string(),
    };

    let size = batch.estimated_size();
    assert!(size > 0, "Batch size should be greater than 0");
    assert!(size < 10000, "Batch size should be reasonable for 10 entries");
}

#[test]
fn test_log_batch_trimming() {
    let mut logs: Vec<LogEntry> = Vec::new();
    for i in 0..100 {
        logs.push(LogEntry {
            timestamp: "2024-01-01T00:00:00+00:00".to_string(),
            level: "info".to_string(),
            message: format!("Very long test message that takes up space {}", i),
            source: Some("test_module".to_string()),
            fields: Vec::new(),
        });
    }

    let original_batch = LogBatch {
        app_info: AppInfo::default(),
        system_info: None,
        logs,
        batch_timestamp: "2024-01-01T00:00:00+00:00".to_string(),
        session_id: "test_session".to_string(),
    };

    // Trim to a small size to force trimming.
    let trimmed = original_batch.trim_to_size_limit(10000);

    assert!(trimmed.logs.len() < 100, "Trimmed batch should have fewer logs");
    assert!(trimmed.estimated_size() <= 10000, "Trimmed batch should be within size limit");

    // The most recent entries are the ones kept.
    assert_eq!(trimmed.logs.len(), 47);
    assert_eq!(
        trimmed.logs[46].message,
        "Very long test message that takes up space 99"
    );
}

#[test]
fn test_log_batch_no_trimming_needed() {
    let logs = vec![LogEntry {
        timestamp: "2024-01-01T00:00:00+00:00".to_string(),
        level: "info".to_string(),
        message: "Short message".to_string(),
        source: Some("test_module".to_string()),
        fields: Vec::new(),
    }];

    let batch = LogBatch {
        app_info: AppInfo::default(),
        system_info: None,
        logs,
        batch_timestamp: "2024-01-01T00:00:00+00:00".to_string(),
        session_id: "test_session".to_string(),
    };

    let trimmed = batch.trim_to_size_limit(2097152);
    assert_eq!(trimmed.logs.len(), 1, "No trimming should be needed for small batch");
}

#[test]
fn test_log_entry_timestamps_have_full_datetime() {
    let config = RemoteLoggingConfig {
        enabled: true,
        ..RemoteLoggingConfig::default()
    };
    let mut logger = RemoteLogger::new(config, None, 0);
    logger.log("info", "stamped", None, Vec::new());
    let batch = logger.flush(1).expect("one entry leaves");
    assert!(batch.logs[0].timestamp.len() >= 19);
    assert!(batch.batch_timestamp.len() >= 19);
}
