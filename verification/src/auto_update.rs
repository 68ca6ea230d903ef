//! Update checking: version comparison, check scheduling, download
//! bookkeeping and the human-readable size, speed and duration formats.

use vstd::prelude::*;
use vstd::string::StringSliceAdditionalSpecFns;
use crate::constants::{APP_VERSION, DEFAULT_UPDATE_CHECK_INTERVAL_HOURS, UPDATE_ENDPOINT};
use crate::textfmt::{
    decimal_string, parse_u32_bytes, spec_all_digits, spec_decimal, spec_digits_value,
};

verus! {

/// Auto-update configuration.
#[derive(Debug, Clone)]
pub struct AutoUpdateConfig {
    /// Whether to check for updates automatically.
    pub enabled: bool,
    /// How often to check for updates, in hours.
    pub check_interval_hours: u64,
    /// Update server endpoint.
    pub update_endpoint: String,
    /// Whether to notify the user before downloading updates.
    pub notify_before_download: bool,
}

impl Default for AutoUpdateConfig {
    /// Checking enabled daily against the default endpoint.
    fn default() -> (r: AutoUpdateConfig)
        ensures
            r.enabled == true,
            r.check_interval_hours == DEFAULT_UPDATE_CHECK_INTERVAL_HOURS,
            r.update_endpoint@ == UPDATE_ENDPOINT@,
            r.notify_before_download == true,
    {
        AutoUpdateConfig {
            enabled: true,
            check_interval_hours: DEFAULT_UPDATE_CHECK_INTERVAL_HOURS,
            update_endpoint: String::from_str(UPDATE_ENDPOINT),
            notify_before_download: true,
        }
    }
}

/// Information about an available software update.
#[derive(Debug, Clone)]
pub struct UpdateInfo {
    /// Version string (for example "1.2.3").
    pub version: String,
    /// Release date.
    pub release_date: String,
    /// Download URL for the update.
    pub download_url: String,
    /// File size in bytes.
    pub file_size: u64,
    /// SHA-256 checksum for verification.
    pub checksum: String,
    /// Release notes or changelog.
    pub release_notes: String,
    /// Whether this is a critical security update.
    pub is_critical: bool,
    /// Minimum supported version for this update.
    pub min_version: Option<String>,
}

/// Outcome of one update check.
#[derive(Debug, Clone)]
pub enum UpdateCheckResult {
    /// No update available.
    NoUpdate,
    /// An update is available.
    UpdateAvailable(UpdateInfo),
    /// The check failed, with a description.
    Error(String),
}

/// Progress of one update download.
#[derive(Debug, Clone, Copy, PartialEq, Eq, Structural)]
pub struct DownloadProgress {
    /// Bytes downloaded so far.
    pub downloaded: u64,
    /// Total bytes to download.
    pub total: u64,
    /// Download speed in bytes per second.
    pub speed_bps: u64,
    /// Estimated time remaining in seconds.
    pub eta_seconds: u64,
}

/// Leading `v` markers stripped from a version string.
pub open spec fn spec_strip_v(s: Seq<u8>) -> Seq<u8>
    decreases s.len(),
{
    if s.len() > 0 && s[0] == 118u8 {
        spec_strip_v(s.skip(1))
    } else {
        s
    }
}

/// The first dot at or after `i`, or the string's length when none follows.
pub open spec fn spec_next_dot(s: Seq<u8>, i: int) -> int
    decreases s.len() - i,
{
    if i < 0 || i >= s.len() {
        s.len() as int
    } else if s[i] == 46u8 {
        i
    } else {
        spec_next_dot(s, i + 1)
    }
}

/// A version component: all digits, non-empty, fitting a `u32`.
pub open spec fn spec_component_ok(p: Seq<u8>) -> bool {
    p.len() > 0 && spec_all_digits(p) && spec_digits_value(p) <= u32::MAX
}

/// The parsed value of the first three dot-separated components of a
/// version string (after stripping leading `v`s), with missing components
/// read as zero. Components past the third are ignored.
pub open spec fn spec_parse_version(s: Seq<u8>) -> Option<(u32, u32, u32)> {
    let t = spec_strip_v(s);
    let d1 = spec_next_dot(t, 0);
    if d1 == t.len() {
        // One component.
        if spec_component_ok(t) {
            Some((spec_digits_value(t) as u32, 0u32, 0u32))
        } else {
            None
        }
    } else {
        let p1 = t.subrange(0, d1);
        let d2 = spec_next_dot(t, d1 + 1);
        if d2 == t.len() {
            // Two components.
            let p2 = t.subrange(d1 + 1, t.len() as int);
            if spec_component_ok(p1) && spec_component_ok(p2) {
                Some(
                    (
                        spec_digits_value(p1) as u32,
                        spec_digits_value(p2) as u32,
                        0u32,
                    ),
                )
            } else {
                None
            }
        } else {
            // Three components; anything after a third dot is ignored.
            let p2 = t.subrange(d1 + 1, d2);
            let d3 = spec_next_dot(t, d2 + 1);
            let p3 = t.subrange(d2 + 1, d3);
            if spec_component_ok(p1) && spec_component_ok(p2) && spec_component_ok(p3) {
                Some(
                    (
                        spec_digits_value(p1) as u32,
                        spec_digits_value(p2) as u32,
                        spec_digits_value(p3) as u32,
                    ),
                )
            } else {
                None
            }
        }
    }
}

/// `(a, b, c)` is strictly newer than `(x, y, z)` lexicographically.
pub open spec fn spec_version_newer(remote: (u32, u32, u32), current: (u32, u32, u32)) -> bool {
    remote.0 > current.0 || (remote.0 == current.0 && (remote.1 > current.1 || (remote.1
        == current.1 && remote.2 > current.2)))
}

/// Decides when an update check is due and which versions count as newer.
/// Fetching, downloading and installing happen at the application boundary;
/// every decision about their results is made here.
pub struct AutoUpdateManager {
    config: AutoUpdateConfig,
    current_version: String,
    last_check_secs: Option<u64>,
}

impl AutoUpdateManager {
    pub closed spec fn config(&self) -> AutoUpdateConfig {
        self.config
    }

    /// The stored version string's characters.
    pub closed spec fn current(&self) -> Seq<char> {
        self.current_version@
    }

    /// The stored version string's UTF-8 bytes.
    pub open spec fn current_bytes(&self) -> Seq<u8> {
        vstd::utf8::encode_utf8(self.current())
    }

    pub closed spec fn last_check(&self) -> Option<u64> {
        self.last_check_secs
    }

    /// A manager for this build's version that has never checked yet.
    pub fn new(config: AutoUpdateConfig) -> (r: AutoUpdateManager)
        ensures
            r.config() == config,
            r.current() == APP_VERSION@,
            r.last_check() is None,
    {
        AutoUpdateManager {
            config,
            current_version: String::from_str(APP_VERSION),
            last_check_secs: None,
        }
    }

    /// Whether an update check is due: enabled, and either never checked or
    /// checked at least the configured interval ago.
    pub fn is_check_due(&self, now_secs: u64) -> (r: bool)
        ensures
            r == (self.config().enabled && match self.last_check() {
                Option::None => true,
                Option::Some(last) => {
                    let elapsed: int = if now_secs >= last {
                        now_secs - last
                    } else {
                        0
                    };
                    elapsed >= self.config().check_interval_hours * 3600
                },
            }),
    {
        if !self.config.enabled {
            return false;
        }
        match self.last_check_secs {
            None => true,
            Some(last) => {
                let elapsed: u64 = if now_secs >= last {
                    now_secs - last
                } else {
                    0
                };
                (elapsed as u128) >= (self.config.check_interval_hours as u128) * 3600
            },
        }
    }

    /// Remember that a check happened now.
    pub fn record_check(&mut self, now_secs: u64)
        ensures
            final(self).config() == old(self).config(),
            final(self).current() == old(self).current(),
            final(self).last_check() == Option::Some(now_secs),
    {
        self.last_check_secs = Some(now_secs);
    }

    /// Parse a semantic version string into its three components.
    pub fn parse_version(&self, version: &str) -> (r: Result<(u32, u32, u32), ()>)
        ensures
            match spec_parse_version(version.spec_bytes()) {
                Option::Some(v) => r == Result::<(u32, u32, u32), ()>::Ok(v),
                Option::None => r is Err,
            },
    {
        parse_version_bytes(version)
    }

    /// Whether the remote version is strictly newer than this build's.
    pub fn is_newer_version(&self, remote_version: &str) -> (r: bool)
        ensures
            r == match (
                spec_parse_version(self.current_bytes()),
                spec_parse_version(remote_version.spec_bytes()),
            ) {
                (Option::Some(cur), Option::Some(rem)) => spec_version_newer(rem, cur),
                _ => false,
            },
    {
        let current = parse_version_bytes(self.current_version.as_str());
        let remote = parse_version_bytes(remote_version);
        match (current, remote) {
            (Ok(cur), Ok(rem)) => {
                rem.0 > cur.0 || (rem.0 == cur.0 && (rem.1 > cur.1 || (rem.1 == cur.1 && rem.2
                    > cur.2)))
            },
            _ => false,
        }
    }

    /// This build's version string.
    pub fn current_version(&self) -> (r: &str)
        ensures
            r@ == self.current(),
    {
        self.current_version.as_str()
    }

    /// Swap the configuration.
    pub fn update_config(&mut self, config: AutoUpdateConfig)
        ensures
            final(self).config() == config,
            final(self).current() == old(self).current(),
            final(self).last_check() == old(self).last_check(),
    {
        self.config = config;
    }

    /// When the last check happened, in seconds since the epoch.
    pub fn last_check_time(&self) -> (r: Option<u64>)
        ensures
            r == self.last_check(),
    {
        self.last_check_secs
    }
}

/// Parse up to three dot-separated `u32` components, after stripping any
/// leading `v` markers.
#[verifier::loop_isolation(false)]
fn parse_version_bytes(version: &str) -> (r: Result<(u32, u32, u32), ()>)
    ensures
        match spec_parse_version(version.spec_bytes()) {
            Option::Some(v) => r == Result::<(u32, u32, u32), ()>::Ok(v),
            Option::None => r is Err,
        },
{
    let slice = version.as_bytes();
    let mut bytes: Vec<u8> = Vec::new();
    let mut i: usize = 0;
    while i < slice.len()
        invariant
            i <= slice@.len(),
            bytes@ =~= slice@.subrange(0, i as int),
        decreases slice@.len() - i,
    {
        bytes.push(slice[i]);
        proof {
            assert(bytes@ =~= slice@.subrange(0, i + 1 as int));
        }
        i = i + 1;
    }
    proof {
        assert(bytes@ =~= version.spec_bytes());
    }
    // Strip leading `v` markers.
    let mut start: usize = 0;
    while start < bytes.len() && bytes[start] == 118
        invariant
            start <= bytes@.len(),
            spec_strip_v(bytes@) == spec_strip_v(bytes@.skip(start as int)),
        decreases bytes@.len() - start,
    {
        proof {
            assert(bytes@.skip(start as int).skip(1) =~= bytes@.skip(start + 1 as int));
        }
        start = start + 1;
    }
    proof {
        assert(spec_strip_v(bytes@.skip(start as int)) == bytes@.skip(start as int));
    }
    let mut t: Vec<u8> = Vec::new();
    let mut j: usize = start;
    while j < bytes.len()
        invariant
            start <= j <= bytes@.len(),
            t@ =~= bytes@.subrange(start as int, j as int),
        decreases bytes@.len() - j,
    {
        t.push(bytes[j]);
        proof {
            assert(t@ =~= bytes@.subrange(start as int, j + 1 as int));
        }
        j = j + 1;
    }
    proof {
        assert(t@ =~= bytes@.skip(start as int));
        assert(spec_strip_v(bytes@) == t@);
    }
    let d1 = next_dot(&t, 0);
    proof {
        assert(t@.subrange(0, t@.len() as int) =~= t@);
    }
    if d1 == t.len() {
        return match component_value(&t, 0, t.len()) {
            Some(v) => Ok((v, 0, 0)),
            None => Err(()),
        };
    }
    let d2 = next_dot(&t, d1 + 1);
    if d2 == t.len() {
        let p1 = component_value(&t, 0, d1);
        let p2 = component_value(&t, d1 + 1, t.len());
        return match (p1, p2) {
            (Some(a), Some(b)) => Ok((a, b, 0)),
            _ => Err(()),
        };
    }
    let d3 = next_dot(&t, d2 + 1);
    let p1 = component_value(&t, 0, d1);
    let p2 = component_value(&t, d1 + 1, d2);
    let p3 = component_value(&t, d2 + 1, d3);
    match (p1, p2, p3) {
        (Some(a), Some(b), Some(c)) => Ok((a, b, c)),
        _ => Err(()),
    }
}

/// The first dot at or after `from`, or the length when none follows.
#[verifier::loop_isolation(false)]
fn next_dot(t: &Vec<u8>, from: usize) -> (r: usize)
    requires
        from <= t@.len() + 1,
    ensures
        from <= t@.len() ==> r == spec_next_dot(t@, from as int) && from <= r,
        from > t@.len() ==> r == t@.len(),
        r <= t@.len(),
        r < t@.len() ==> t@[r as int] == 46u8,
{
    let mut i: usize = from;
    if i > t.len() {
        return t.len();
    }
    while i < t.len()
        invariant
            from <= i <= t@.len(),
            spec_next_dot(t@, from as int) == spec_next_dot(t@, i as int),
        decreases t@.len() - i,
    {
        if t[i] == 46 {
            return i;
        }
        i = i + 1;
    }
    t.len()
}

/// The value of the component in `[lo, hi)`, when it is a valid one.
fn component_value(t: &Vec<u8>, lo: usize, hi: usize) -> (r: Option<u32>)
    requires
        lo <= hi <= t@.len(),
    ensures
        spec_component_ok(t@.subrange(lo as int, hi as int)) ==> r == Option::Some(
            spec_digits_value(t@.subrange(lo as int, hi as int)) as u32,
        ),
        !spec_component_ok(t@.subrange(lo as int, hi as int)) ==> r is None,
{
    let mut part: Vec<u8> = Vec::new();
    let mut i: usize = lo;
    while i < hi
        invariant
            lo <= i <= hi <= t@.len(),
            part@ =~= t@.subrange(lo as int, i as int),
        decreases hi - i,
    {
        part.push(t[i]);
        proof {
            assert(part@ =~= t@.subrange(lo as int, i + 1 as int));
        }
        i = i + 1;
    }
    parse_u32_bytes(part.as_slice())
}

/// Render a byte count in a human-readable unit with one decimal place.
pub open spec fn spec_file_size_string(bytes: nat) -> Seq<char> {
    if bytes < 1024 {
        spec_decimal(bytes) + " B"@
    } else {
        let (v10, unit) = if bytes < 1048576 {
            (bytes * 10 / 1024, " KB"@)
        } else if bytes < 1073741824 {
            (bytes * 10 / 1048576, " MB"@)
        } else {
            (bytes * 10 / 1073741824, " GB"@)
        };
        spec_decimal(v10 / 10) + "."@ + spec_decimal(v10 % 10) + unit
    }
}

/// Format a file size in a human-readable unit (B, KB, MB or GB) with one
/// decimal place, truncating.
pub fn format_file_size(bytes: u64) -> (r: String)
    ensures
        r@ == spec_file_size_string(bytes as nat),
{
    if bytes < 1024 {
        let mut s = decimal_string(bytes);
        s.append(" B");
        return s;
    }
    let (v10, unit): (u64, &'static str) = if bytes < 1048576 {
        (bytes / 1024 * 10 + bytes % 1024 * 10 / 1024, " KB")
    } else if bytes < 1073741824 {
        (bytes / 1048576 * 10 + bytes % 1048576 * 10 / 1048576, " MB")
    } else {
        (bytes / 1073741824 * 10 + bytes % 1073741824 * 10 / 1073741824, " GB")
    };
    proof {
        vstd::arithmetic::div_mod::lemma_fundamental_div_mod(bytes as int, 1024);
        vstd::arithmetic::div_mod::lemma_fundamental_div_mod(bytes as int, 1048576);
        vstd::arithmetic::div_mod::lemma_fundamental_div_mod(bytes as int, 1073741824);
        lemma_scaled_div(bytes as int, 1024);
        lemma_scaled_div(bytes as int, 1048576);
        lemma_scaled_div(bytes as int, 1073741824);
    }
    let mut s = decimal_string(v10 / 10);
    s.append(".");
    let frac = decimal_string(v10 % 10);
    s.append(frac.as_str());
    s.append(unit);
    s
}

/// `(b / d) * 10 + (b % d) * 10 / d == b * 10 / d`.
proof fn lemma_scaled_div(b: int, d: int)
    requires
        b >= 0,
        d >= 1,
    ensures
        (b / d) * 10 + (b % d) * 10 / d == b * 10 / d,
{
    vstd::arithmetic::div_mod::lemma_fundamental_div_mod(b, d);
    let q = b / d;
    let r = b % d;
    vstd::arithmetic::div_mod::lemma_mod_bound(b, d);
    assert(b * 10 == (q * 10) * d + r * 10) by (nonlinear_arith)
        requires
            b == d * q + r,
    ;
    vstd::arithmetic::div_mod::lemma_fundamental_div_mod(r * 10, d);
    let q2 = (r * 10) / d;
    let r2 = (r * 10) % d;
    vstd::arithmetic::div_mod::lemma_mod_bound(r * 10, d);
    assert(b * 10 == (q * 10 + q2) * d + r2) by (nonlinear_arith)
        requires
            b * 10 == (q * 10) * d + r * 10,
            r * 10 == d * q2 + r2,
    ;
    vstd::arithmetic::div_mod::lemma_fundamental_div_mod_converse_div(
        b * 10,
        d,
        q * 10 + q2,
        r2,
    );
}

/// Format a transfer speed: the size format with a per-second suffix.
pub fn format_speed(bytes_per_second: u64) -> (r: String)
    ensures
        r@ == spec_file_size_string(bytes_per_second as nat) + "/s"@,
{
    let mut s = format_file_size(bytes_per_second);
    s.append("/s");
    s
}

/// Render a duration in seconds, minutes or hours.
pub open spec fn spec_duration_string(seconds: nat) -> Seq<char> {
    if seconds < 60 {
        spec_decimal(seconds) + "s"@
    } else if seconds < 3600 {
        spec_decimal(seconds / 60) + "m "@ + spec_decimal(seconds % 60) + "s"@
    } else {
        spec_decimal(seconds / 3600) + "h "@ + spec_decimal((seconds % 3600) / 60) + "m"@
    }
}

/// Format a duration in a human-readable unit.
pub fn format_duration(seconds: u64) -> (r: String)
    ensures
        r@ == spec_duration_string(seconds as nat),
{
    if seconds < 60 {
        let mut s = decimal_string(seconds);
        s.append("s");
        s
    } else if seconds < 3600 {
        let mut s = decimal_string(seconds / 60);
        s.append("m ");
        let secs = decimal_string(seconds % 60);
        s.append(secs.as_str());
        s.append("s");
        s
    } else {
        let mut s = decimal_string(seconds / 3600);
        s.append("h ");
        let mins = decimal_string((seconds % 3600) / 60);
        s.append(mins.as_str());
        s.append("m");
        s
    }
}

} // verus!
