//! Buffered remote logging: entries collect in memory and leave in bounded
//! batches. Building, trimming and draining the buffer is decided here; the
//! application boundary performs the actual transmission.

use vstd::prelude::*;
use crate::constants::{
    APP_VERSION, DEFAULT_LOG_BATCH_SIZE, DEFAULT_LOG_FLUSH_INTERVAL_SECONDS, MAX_PAYLOAD_SIZE_BYTES,
    PERFORMANCE_ENDPOINT,
};
use crate::system_info::SystemInfo;
use crate::textfmt::{decimal_string, spec_decimal};

verus! {

/// Configuration for remote logging.
#[derive(Debug, Clone)]
pub struct RemoteLoggingConfig {
    /// Whether remote logging is enabled.
    pub enabled: bool,
    /// Remote endpoint URL for log submission.
    pub endpoint: String,
    /// How many entries to buffer before a batch should leave.
    pub batch_size: usize,
    /// Longest time to wait before a batch should leave, in seconds.
    pub flush_interval_seconds: u64,
    /// Whether to attach system information to each batch.
    pub include_system_info: bool,
    /// Authentication token, when the endpoint requires one.
    pub auth_token: Option<String>,
}

impl Default for RemoteLoggingConfig {
    /// Disabled by default, for privacy.
    fn default() -> (r: RemoteLoggingConfig)
        ensures
            r.enabled == false,
            r.endpoint@ == PERFORMANCE_ENDPOINT@,
            r.batch_size == DEFAULT_LOG_BATCH_SIZE,
            r.flush_interval_seconds == DEFAULT_LOG_FLUSH_INTERVAL_SECONDS,
            r.include_system_info == true,
            r.auth_token is None,
    {
        RemoteLoggingConfig {
            enabled: false,
            endpoint: String::from_str(PERFORMANCE_ENDPOINT),
            batch_size: DEFAULT_LOG_BATCH_SIZE,
            flush_interval_seconds: DEFAULT_LOG_FLUSH_INTERVAL_SECONDS,
            include_system_info: true,
            auth_token: None,
        }
    }
}

/// A single log entry awaiting transmission.
#[derive(Debug, Clone)]
pub struct LogEntry {
    /// When the entry was created (RFC 3339).
    pub timestamp: String,
    /// Log level ("error", "warn", "info", "debug").
    pub level: String,
    /// Log message content.
    pub message: String,
    /// Source module or location.
    pub source: Option<String>,
    /// Additional structured fields.
    pub fields: Vec<(String, String)>,
}

/// Application identification attached to each batch.
#[derive(Debug, Clone)]
pub struct AppInfo {
    /// Application name.
    pub name: String,
    /// Application version.
    pub version: String,
    /// Build target architecture.
    pub build_target: String,
}

impl Default for AppInfo {
    /// This application and version; the build target is filled in by the
    /// boundary that knows the platform.
    fn default() -> (r: AppInfo)
        ensures
            r.name@ == "Kwite"@,
            r.version@ == APP_VERSION@,
            r.build_target@ == "unknown"@,
    {
        AppInfo {
            name: String::from_str("Kwite"),
            version: String::from_str(APP_VERSION),
            build_target: String::from_str("unknown"),
        }
    }
}

/// A batch of log entries with its context.
#[derive(Debug)]
pub struct LogBatch {
    /// Application name and version.
    pub app_info: AppInfo,
    /// System information context, when configured.
    pub system_info: Option<SystemInfo>,
    /// The batched entries, oldest first.
    pub logs: Vec<LogEntry>,
    /// When this batch was assembled (RFC 3339).
    pub batch_timestamp: String,
    /// Session identifier for this application run.
    pub session_id: String,
}

/// The size estimate of a batch: a fixed allowance for the metadata plus a
/// per-entry allowance.
pub open spec fn spec_estimated_size(n_logs: nat) -> int {
    500 + 200 * (n_logs as int)
}

/// How many of the newest entries a size limit admits.
pub open spec fn spec_kept_under(n_logs: nat, max_size: int) -> int {
    let cap = if max_size >= 500 {
        (max_size - 500) / 200
    } else {
        0
    };
    if n_logs <= cap {
        n_logs as int
    } else {
        cap
    }
}

impl LogBatch {
    /// Estimate the serialized size of this batch in bytes.
    pub fn estimated_size(&self) -> (r: usize)
        requires
            self.logs@.len() <= 0x10_0000,
        ensures
            r == spec_estimated_size(self.logs@.len()),
    {
        500 + 200 * self.logs.len()
    }

    /// Keep only the newest entries that fit within a size limit; older
    /// entries are dropped first.
    #[verifier::loop_isolation(false)]
    pub fn trim_to_size_limit(self, max_size: usize) -> (r: LogBatch)
        requires
            self.logs@.len() <= 0x10_0000,
        ensures
            r.logs@ =~= self.logs@.skip(
                self.logs@.len() - spec_kept_under(self.logs@.len(), max_size as int),
            ),
            spec_estimated_size(r.logs@.len()) <= max_size || r.logs@.len() == 0,
            r.app_info == self.app_info,
            r.system_info == self.system_info,
            r.batch_timestamp == self.batch_timestamp,
            r.session_id == self.session_id,
    {
        let cap: usize = if max_size >= 500 {
            (max_size - 500) / 200
        } else {
            0
        };
        let n = self.logs.len();
        let kept = if n <= cap {
            n
        } else {
            cap
        };
        let LogBatch { app_info, system_info, mut logs, batch_timestamp, session_id } = self;
        let suffix = logs.split_off(n - kept);
        LogBatch { app_info, system_info, logs: suffix, batch_timestamp, session_id }
    }
}

/// Relies on chrono's `Utc::now` and `DateTime::to_rfc3339`: the current
/// time rendered in RFC 3339 form, which is never shorter than a full
/// date-time ("YYYY-MM-DDTHH:MM:SS").
#[verifier::external_body]
fn utc_now_rfc3339() -> (r: String)
    ensures
        r@.len() >= 19,
{
    chrono::Utc::now().to_rfc3339()
}

/// Relies on rand::random: an arbitrary 32-bit value; nothing is known of
/// its distribution or relation to earlier draws.
#[verifier::external_body]
fn random_u32() -> (r: u32)
{
    rand::random::<u32>()
}

/// Buffered collector of log entries.
///
/// Entries accumulate while logging is enabled; `flush` empties the buffer
/// into a size-capped batch for the caller to transmit.
pub struct RemoteLogger {
    config: RemoteLoggingConfig,
    buffer: Vec<LogEntry>,
    system_info: Option<SystemInfo>,
    session_id: String,
    last_flush_secs: u64,
}

impl RemoteLogger {
    pub closed spec fn config(&self) -> RemoteLoggingConfig {
        self.config
    }

    pub closed spec fn buffer(&self) -> Seq<LogEntry> {
        self.buffer@
    }

    pub closed spec fn session_id(&self) -> Seq<char> {
        self.session_id@
    }

    pub closed spec fn last_flush(&self) -> int {
        self.last_flush_secs as int
    }

    pub closed spec fn wf(&self) -> bool {
        self.buffer@.len() <= 0x10_0000
    }

    /// A logger for one application run. The session identifier combines
    /// the start time with a random tag.
    pub fn new(config: RemoteLoggingConfig, system_info: Option<SystemInfo>, now_secs: u64) -> (r:
        RemoteLogger)
        ensures
            r.wf(),
            r.config() == config,
            r.buffer() =~= Seq::<LogEntry>::empty(),
            r.last_flush() == now_secs,
            exists|tag: u32|
                r.session_id() == "kwite_"@ + spec_decimal(now_secs as nat) + "_"@ + spec_decimal(
                    tag as nat,
                ),
    {
        let mut session_id = String::from_str("kwite_");
        let secs = decimal_string(now_secs);
        session_id.append(secs.as_str());
        session_id.append("_");
        let tag = random_u32();
        let tag_str = decimal_string(tag as u64);
        session_id.append(tag_str.as_str());
        proof {
            assert(session_id@ == "kwite_"@ + spec_decimal(now_secs as nat) + "_"@ + spec_decimal(
                tag as nat,
            ));
        }
        RemoteLogger {
            config,
            buffer: Vec::new(),
            system_info,
            session_id,
            last_flush_secs: now_secs,
        }
    }

    /// Append one entry to the buffer, when logging is enabled and the
    /// buffer has room. The entry is stamped with the current time.
    pub fn log(&mut self, level: &str, message: &str, source: Option<&str>, fields: Vec<(String, String)>)
        requires
            old(self).wf(),
        ensures
            final(self).wf(),
            final(self).config() == old(self).config(),
            final(self).session_id() == old(self).session_id(),
            final(self).last_flush() == old(self).last_flush(),
            !old(self).config().enabled || old(self).buffer().len() >= 0x10_0000
                ==> final(self).buffer() == old(self).buffer(),
            old(self).config().enabled && old(self).buffer().len() < 0x10_0000 ==> {
                &&& final(self).buffer().len() == old(self).buffer().len() + 1
                &&& final(self).buffer().subrange(0, old(self).buffer().len() as int)
                    =~= old(self).buffer()
                &&& final(self).buffer().last().level@ == level@
                &&& final(self).buffer().last().message@ == message@
                &&& final(self).buffer().last().timestamp@.len() >= 19
                &&& match (final(self).buffer().last().source, source) {
                    (Option::Some(s), Option::Some(given)) => s@ == given@,
                    (Option::None, Option::None) => true,
                    _ => false,
                }
                &&& final(self).buffer().last().fields == fields
            },
    {
        if !self.config.enabled {
            return;
        }
        if self.buffer.len() >= 0x10_0000 {
            return;
        }
        let entry = LogEntry {
            timestamp: utc_now_rfc3339(),
            level: String::from_str(level),
            message: String::from_str(message),
            source: match source {
                Some(s) => Some(String::from_str(s)),
                None => None,
            },
            fields,
        };
        self.buffer.push(entry);
    }

    /// Whether a batch should leave now: the buffer has reached the batch
    /// size, or the flush interval has passed since the last flush.
    pub fn should_flush(&self, now_secs: u64) -> (r: bool)
        ensures
            r == (self.config().enabled && (self.buffer().len() >= self.config().batch_size || (
            now_secs >= self.last_flush() && now_secs - self.last_flush()
                >= self.config().flush_interval_seconds))),
    {
        if !self.config.enabled {
            return false;
        }
        if self.buffer.len() >= self.config.batch_size {
            return true;
        }
        now_secs >= self.last_flush_secs && now_secs - self.last_flush_secs
            >= self.config.flush_interval_seconds
    }

    /// Drain the buffer into a batch for transmission, capped to the
    /// payload size limit (oldest entries dropped first). Returns nothing
    /// when logging is disabled or nothing is buffered.
    pub fn flush(&mut self, now_secs: u64) -> (r: Option<LogBatch>)
        requires
            old(self).wf(),
        ensures
            final(self).wf(),
            final(self).config() == old(self).config(),
            final(self).session_id() == old(self).session_id(),
            !old(self).config().enabled || old(self).buffer().len() == 0 ==> r is None
                && final(self).buffer() == old(self).buffer() && final(self).last_flush()
                == old(self).last_flush(),
            old(self).config().enabled && old(self).buffer().len() > 0 ==> match r {
                Option::Some(batch) => {
                    &&& batch.logs@ =~= old(self).buffer().skip(
                        old(self).buffer().len() - spec_kept_under(
                            old(self).buffer().len(),
                            MAX_PAYLOAD_SIZE_BYTES as int,
                        ),
                    )
                    &&& batch.session_id@ == old(self).session_id()
                    &&& batch.batch_timestamp@.len() >= 19
                    &&& final(self).buffer().len() == 0
                    &&& final(self).last_flush() == now_secs
                },
                Option::None => false,
            },
    {
        if !self.config.enabled {
            return None;
        }
        if self.buffer.len() == 0 {
            return None;
        }
        let mut drained: Vec<LogEntry> = Vec::new();
        core::mem::swap(&mut drained, &mut self.buffer);
        let system_info = if self.config.include_system_info {
            match &self.system_info {
                Some(info) => Some(info.clone()),
                None => None,
            }
        } else {
            None
        };
        let batch = LogBatch {
            app_info: AppInfo::default(),
            system_info,
            logs: drained,
            batch_timestamp: utc_now_rfc3339(),
            session_id: self.session_id.clone(),
        };
        let trimmed = batch.trim_to_size_limit(MAX_PAYLOAD_SIZE_BYTES);
        self.last_flush_secs = now_secs;
        Some(trimmed)
    }

    /// How many entries are buffered.
    pub fn buffer_size(&self) -> (r: usize)
        ensures
            r == self.buffer().len(),
    {
        self.buffer.len()
    }

    /// Swap the configuration.
    pub fn update_config(&mut self, config: RemoteLoggingConfig)
        requires
            old(self).wf(),
        ensures
            final(self).wf(),
            final(self).config() == config,
            final(self).buffer() == old(self).buffer(),
            final(self).session_id() == old(self).session_id(),
    {
        self.config = config;
    }
}

/// Build the logger for one application run.
pub fn init_remote_logger(
    config: RemoteLoggingConfig,
    system_info: Option<SystemInfo>,
    now_secs: u64,
) -> (r: RemoteLogger)
    ensures
        r.wf(),
        r.config() == config,
        r.buffer() =~= Seq::<LogEntry>::empty(),
        r.last_flush() == now_secs,
        exists|tag: u32|
            r.session_id() == "kwite_"@ + spec_decimal(now_secs as nat) + "_"@ + spec_decimal(
                tag as nat,
            ),
{
    RemoteLogger::new(config, system_info, now_secs)
}

/// Log one message to the remote logging buffer.
pub fn log_remote(
    logger: &mut RemoteLogger,
    level: &str,
    message: &str,
    source: Option<&str>,
    fields: Vec<(String, String)>,
)
    requires
        old(logger).wf(),
    ensures
        final(logger).wf(),
        final(logger).config() == old(logger).config(),
        final(logger).session_id() == old(logger).session_id(),
        !old(logger).config().enabled || old(logger).buffer().len() >= 0x10_0000
            ==> final(logger).buffer() == old(logger).buffer(),
        old(logger).config().enabled && old(logger).buffer().len() < 0x10_0000 ==> {
            &&& final(logger).buffer().len() == old(logger).buffer().len() + 1
            &&& final(logger).buffer().subrange(0, old(logger).buffer().len() as int)
                =~= old(logger).buffer()
            &&& final(logger).buffer().last().level@ == level@
            &&& final(logger).buffer().last().message@ == message@
            &&& final(logger).buffer().last().timestamp@.len() >= 19
            &&& final(logger).buffer().last().fields == fields
        },
{
    logger.log(level, message, source, fields);
}

/// Force a flush of the buffered entries into a batch for transmission.
pub fn flush_remote_logs(logger: &mut RemoteLogger, now_secs: u64) -> (r: Option<LogBatch>)
    requires
        old(logger).wf(),
    ensures
        final(logger).wf(),
        final(logger).config() == old(logger).config(),
        !old(logger).config().enabled || old(logger).buffer().len() == 0 ==> r is None
            && final(logger).buffer() == old(logger).buffer(),
        old(logger).config().enabled && old(logger).buffer().len() > 0 ==> match r {
            Option::Some(batch) => {
                &&& batch.logs@ =~= old(logger).buffer().skip(
                    old(logger).buffer().len() - spec_kept_under(
                        old(logger).buffer().len(),
                        MAX_PAYLOAD_SIZE_BYTES as int,
                    ),
                )
                &&& batch.session_id@ == old(logger).session_id()
                &&& final(logger).buffer().len() == 0
                &&& final(logger).last_flush() == now_secs
            },
            Option::None => false,
        },
{
    logger.flush(now_secs)
}

/// How many entries wait in the remote logging buffer.
pub fn remote_log_buffer_size(logger: &RemoteLogger) -> (r: usize)
    ensures
        r == logger.buffer().len(),
{
    logger.buffer_size()
}

} // verus!
