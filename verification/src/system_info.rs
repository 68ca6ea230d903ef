//! System information: the record the analytics boundary fills in, the
//! validation and rendering logic it relies on, and the host facts the
//! library can gather itself.

use vstd::prelude::*;
use vstd::string::StringSliceAdditionalSpecFns;
use crate::textfmt::{
    decimal_string, equals_str_bytes, parse_u32_bytes, spec_all_digits, spec_decimal,
    spec_digits_value, spec_starts_with, starts_with_bytes,
};
use crate::virtual_audio::OperatingSystem;

verus! {

/// One dot-separated run of an IPv4 address: non-empty, all digits, and
/// valued no higher than 255.
pub open spec fn spec_part_ok(p: Seq<u8>) -> bool {
    p.len() > 0 && spec_all_digits(p) && spec_digits_value(p) <= 255
}

/// The bytes form a dotted quad: exactly three dots, splitting the string
/// into four valid octet runs.
pub open spec fn spec_dotted_quad(s: Seq<u8>) -> bool {
    exists|a: int, b: int, c: int|
        {
            &&& 0 <= a < b < c < s.len()
            &&& (#[trigger] s[a]) == 46u8
            &&& (#[trigger] s[b]) == 46u8
            &&& (#[trigger] s[c]) == 46u8
            &&& (forall|x: int| 0 <= x < s.len() && #[trigger] s[x] == 46u8 ==> x == a || x == b || x == c)
            &&& spec_part_ok(s.subrange(0, a))
            &&& spec_part_ok(s.subrange(a + 1, b))
            &&& spec_part_ok(s.subrange(b + 1, c))
            &&& spec_part_ok(s.subrange(c + 1, s.len() as int))
        }
}

/// A plausible public (WAN) IPv4 address: a dotted quad outside the
/// private, loopback and unspecified ranges.
pub open spec fn spec_valid_wan_ip(s: Seq<u8>) -> bool {
    &&& spec_dotted_quad(s)
    &&& !spec_starts_with(s, "10.".spec_bytes())
    &&& !spec_starts_with(s, "172.".spec_bytes())
    &&& !spec_starts_with(s, "192.168.".spec_bytes())
    &&& !spec_starts_with(s, "127.".spec_bytes())
    &&& !(s =~= "0.0.0.0".spec_bytes())
}

/// Whether the byte run `[lo, hi)` is a valid octet.
fn octet_ok(bytes: &Vec<u8>, lo: usize, hi: usize) -> (r: bool)
    requires
        lo <= hi <= bytes@.len(),
    ensures
        r == spec_part_ok(bytes@.subrange(lo as int, hi as int)),
{
    let mut part: Vec<u8> = Vec::new();
    let mut i: usize = lo;
    while i < hi
        invariant
            lo <= i <= hi <= bytes@.len(),
            part@ =~= bytes@.subrange(lo as int, i as int),
        decreases hi - i,
    {
        part.push(bytes[i]);
        proof {
            assert(part@ =~= bytes@.subrange(lo as int, i + 1 as int));
        }
        i = i + 1;
    }
    match parse_u32_bytes(part.as_slice()) {
        Some(v) => v <= 255,
        None => false,
    }
}

/// The positions of every dot in the byte string, in increasing order.
#[verifier::loop_isolation(false)]
fn collect_dots(bytes: &Vec<u8>) -> (dots: Vec<usize>)
    ensures
        forall|k: int|
            0 <= k < dots@.len() ==> (#[trigger] dots@[k]) < bytes@.len() && bytes@[dots@[k] as int]
                == 46u8,
        forall|k1: int, k2: int|
            0 <= k1 < k2 < dots@.len() ==> (#[trigger] dots@[k1]) < (#[trigger] dots@[k2]),
        forall|x: int|
            0 <= x < bytes@.len() && #[trigger] bytes@[x] == 46u8 ==> exists|k: int|
                0 <= k < dots@.len() && dots@[k] == x,
{
    let ghost bs = bytes@;
    let n = bytes.len();
    let mut dots: Vec<usize> = Vec::new();
    let mut j: usize = 0;
    while j < n
        invariant
            j <= n,
            n == bs.len(),
            bytes@ == bs,
            forall|k: int|
                0 <= k < dots@.len() ==> (#[trigger] dots@[k]) < j && bs[dots@[k] as int] == 46u8,
            forall|k1: int, k2: int|
                0 <= k1 < k2 < dots@.len() ==> (#[trigger] dots@[k1]) < (#[trigger] dots@[k2]),
            forall|x: int|
                0 <= x < j && #[trigger] bs[x] == 46u8 ==> exists|k: int|
                    0 <= k < dots@.len() && dots@[k] == x,
        decreases n - j,
    {
        let ghost dots_before = dots@;
        if bytes[j] == 46 {
            dots.push(j);
            proof {
                assert(dots@[dots@.len() - 1] == j);
            }
        }
        proof {
            assert forall|x: int| 0 <= x < j + 1 && #[trigger] bs[x] == 46u8 implies exists|k: int|
                0 <= k < dots@.len() && dots@[k] == x by {
                if x < j {
                    let k0 = choose|k: int| 0 <= k < dots_before.len() && dots_before[k] == x;
                    assert(dots@[k0] == x);
                } else {
                    assert(dots@[dots@.len() - 1] == x);
                }
            }
        }
        j = j + 1;
    }
    dots
}

/// Decide whether the bytes form a dotted quad of valid octets.
#[verifier::rlimit(50)]
fn is_dotted_quad(bytes: &Vec<u8>) -> (r: bool)
    ensures
        r == spec_dotted_quad(bytes@),
{
    let ghost bs = bytes@;
    let n = bytes.len();
    let dots = collect_dots(bytes);
    if dots.len() != 3 {
        proof {
            if spec_dotted_quad(bs) {
                let (a, b, c) = choose|a: int, b: int, c: int|
                    {
                        &&& 0 <= a < b < c < bs.len()
                        &&& (#[trigger] bs[a]) == 46u8
                        &&& (#[trigger] bs[b]) == 46u8
                        &&& (#[trigger] bs[c]) == 46u8
                        &&& (forall|x: int|
                            0 <= x < bs.len() && #[trigger] bs[x] == 46u8 ==> x == a || x == b || x
                                == c)
                        &&& spec_part_ok(bs.subrange(0, a))
                        &&& spec_part_ok(bs.subrange(a + 1, b))
                        &&& spec_part_ok(bs.subrange(b + 1, c))
                        &&& spec_part_ok(bs.subrange(c + 1, bs.len() as int))
                    };
                if dots@.len() < 3 {
                    let ka = choose|k: int| 0 <= k < dots@.len() && dots@[k] == a;
                    let kb = choose|k: int| 0 <= k < dots@.len() && dots@[k] == b;
                    let kc = choose|k: int| 0 <= k < dots@.len() && dots@[k] == c;
                    assert(ka != kb && kb != kc && ka != kc);
                    assert(false);
                } else {
                    // At least four distinct dot positions would all have to
                    // be one of a, b, c.
                    assert(dots@[0] < dots@[1] < dots@[2] < dots@[3]);
                    assert(bs[dots@[0] as int] == 46u8 && bs[dots@[1] as int] == 46u8 && bs[
                        dots@[2] as int] == 46u8 && bs[dots@[3] as int] == 46u8);
                    assert(false);
                }
            }
        }
        return false;
    }
    let d0 = dots[0];
    let d1 = dots[1];
    let d2 = dots[2];
    let parts_ok = octet_ok(bytes, 0, d0) && octet_ok(bytes, d0 + 1, d1) && octet_ok(
        bytes,
        d1 + 1,
        d2,
    ) && octet_ok(bytes, d2 + 1, n);
    proof {
        if parts_ok {
            assert(spec_dotted_quad(bs)) by {
                assert({
                    &&& 0 <= d0 < d1 < d2 < bs.len()
                    &&& bs[d0 as int] == 46u8
                    &&& bs[d1 as int] == 46u8
                    &&& bs[d2 as int] == 46u8
                    &&& (forall|x: int|
                        0 <= x < bs.len() && #[trigger] bs[x] == 46u8 ==> x == d0 || x == d1 || x
                            == d2)
                    &&& spec_part_ok(bs.subrange(0, d0 as int))
                    &&& spec_part_ok(bs.subrange(d0 + 1, d1 as int))
                    &&& spec_part_ok(bs.subrange(d1 + 1, d2 as int))
                    &&& spec_part_ok(bs.subrange(d2 + 1, bs.len() as int))
                }) by {
                    assert forall|x: int| 0 <= x < bs.len() && #[trigger] bs[x] == 46u8 implies x
                        == d0 || x == d1 || x == d2 by {
                        let k0 = choose|k: int| 0 <= k < dots@.len() && dots@[k] == x;
                    }
                }
            }
        } else {
            if spec_dotted_quad(bs) {
                let (a, b, c) = choose|a: int, b: int, c: int|
                    {
                        &&& 0 <= a < b < c < bs.len()
                        &&& (#[trigger] bs[a]) == 46u8
                        &&& (#[trigger] bs[b]) == 46u8
                        &&& (#[trigger] bs[c]) == 46u8
                        &&& (forall|x: int|
                            0 <= x < bs.len() && #[trigger] bs[x] == 46u8 ==> x == a || x == b || x
                                == c)
                        &&& spec_part_ok(bs.subrange(0, a))
                        &&& spec_part_ok(bs.subrange(a + 1, b))
                        &&& spec_part_ok(bs.subrange(b + 1, c))
                        &&& spec_part_ok(bs.subrange(c + 1, bs.len() as int))
                    };
                // Both (a, b, c) and (d0, d1, d2) list every dot in order,
                // so they coincide.
                let ka = choose|k: int| 0 <= k < dots@.len() && dots@[k] == a;
                let kb = choose|k: int| 0 <= k < dots@.len() && dots@[k] == b;
                let kc = choose|k: int| 0 <= k < dots@.len() && dots@[k] == c;
                assert(ka != kb && kb != kc && ka != kc);
                assert(a == d0 && b == d1 && c == d2);
                assert(false);
            }
        }
    }
    parts_ok
}

/// Collected facts about the host system.
#[derive(Debug, Clone)]
pub struct SystemInfo {
    /// Operating system name ("Windows", "macOS", "Linux", "Unknown").
    pub os_name: String,
    /// Operating system version.
    pub os_version: String,
    /// Hardware architecture (for example "x86_64" or "aarch64").
    pub architecture: String,
    /// Total system memory in MB.
    pub total_memory_mb: u64,
    /// Available system memory in MB.
    pub available_memory_mb: u64,
    /// CPU model name.
    pub cpu_model: String,
    /// Number of CPU cores.
    pub cpu_cores: u32,
    /// SHA-256 of the primary network interface's MAC address.
    pub mac_address_hash: String,
    /// External (WAN) IP address, or "unknown".
    pub ip_address: String,
    /// When the information was collected (RFC 3339).
    pub collected_at: String,
}

impl SystemInfo {
    /// The canonical name of a platform.
    pub fn get_os_name(os: &OperatingSystem) -> (r: String)
        ensures
            r@ == match os {
                OperatingSystem::Windows => "Windows"@,
                OperatingSystem::MacOS => "macOS"@,
                OperatingSystem::Linux => "Linux"@,
                OperatingSystem::Unknown => "Unknown"@,
            },
    {
        match os {
            OperatingSystem::Windows => String::from_str("Windows"),
            OperatingSystem::MacOS => String::from_str("macOS"),
            OperatingSystem::Linux => String::from_str("Linux"),
            OperatingSystem::Unknown => String::from_str("Unknown"),
        }
    }

    /// Relies on num_cpus::get: the number of CPUs available to the
    /// process, documented to always be at least one.
    #[verifier::external_body]
    fn available_cpus() -> (r: usize)
        ensures
            r >= 1,
    {
        num_cpus::get()
    }

    /// The number of CPU cores, as the platform reports it.
    pub fn get_cpu_cores() -> (r: u32)
        ensures
            r >= 1,
    {
        let n = Self::available_cpus();
        if n > 0xFFFF_FFFFusize {
            0xFFFF_FFFFu32
        } else {
            n as u32
        }
    }

    /// Validate a WAN IPv4 address: four dot-separated octets, outside the
    /// private, loopback and unspecified ranges.
    pub fn is_valid_wan_ip(ip: &str) -> (r: bool)
        ensures
            r == spec_valid_wan_ip(ip.spec_bytes()),
    {
        let slice = ip.as_bytes();
        let mut bytes: Vec<u8> = Vec::new();
        let mut i: usize = 0;
        while i < slice.len()
            invariant
                i <= slice@.len(),
                bytes@ =~= slice@.subrange(0, i as int),
                bytes@.len() == i,
            decreases slice@.len() - i,
        {
            bytes.push(slice[i]);
            proof {
                assert(bytes@ =~= slice@.subrange(0, i + 1 as int));
            }
            i = i + 1;
        }
        proof {
            assert(bytes@ =~= ip.spec_bytes());
        }
        if !is_dotted_quad(&bytes) {
            return false;
        }
        if starts_with_bytes(&bytes, "10.") || starts_with_bytes(&bytes, "172.")
            || starts_with_bytes(&bytes, "192.168.") || starts_with_bytes(&bytes, "127.")
            || equals_str_bytes(&bytes, "0.0.0.0") {
            return false;
        }
        true
    }

    /// Render the collected facts as one log line.
    pub fn to_log_string(&self) -> (r: String)
        ensures
            r@ == "OS: "@ + self.os_name@ + " "@ + self.os_version@ + ", Arch: "@
                + self.architecture@ + ", RAM: "@ + spec_decimal(self.available_memory_mb as nat)
                + "MB/"@ + spec_decimal(self.total_memory_mb as nat) + "MB, CPU: "@
                + self.cpu_model@ + " ("@ + spec_decimal(self.cpu_cores as nat) + " cores), MAC Hash: "@
                + self.mac_address_hash@ + ", IP: "@ + self.ip_address@ + ", Collected: "@
                + self.collected_at@,
    {
        let mut s = String::from_str("OS: ");
        s.append(self.os_name.as_str());
        s.append(" ");
        s.append(self.os_version.as_str());
        s.append(", Arch: ");
        s.append(self.architecture.as_str());
        s.append(", RAM: ");
        let avail = decimal_string(self.available_memory_mb);
        s.append(avail.as_str());
        s.append("MB/");
        let total = decimal_string(self.total_memory_mb);
        s.append(total.as_str());
        s.append("MB, CPU: ");
        s.append(self.cpu_model.as_str());
        s.append(" (");
        let cores = decimal_string(self.cpu_cores as u64);
        s.append(cores.as_str());
        s.append(" cores), MAC Hash: ");
        s.append(self.mac_address_hash.as_str());
        s.append(", IP: ");
        s.append(self.ip_address.as_str());
        s.append(", Collected: ");
        s.append(self.collected_at.as_str());
        s
    }

    /// The collected facts as named fields, for structured logging.
    pub fn to_fields(&self) -> (r: Vec<(String, String)>)
        ensures
            r@.len() == 10,
            r@[0].0@ == "os_name"@ && r@[0].1@ == self.os_name@,
            r@[1].0@ == "os_version"@ && r@[1].1@ == self.os_version@,
            r@[2].0@ == "architecture"@ && r@[2].1@ == self.architecture@,
            r@[3].0@ == "total_memory_mb"@ && r@[3].1@ == spec_decimal(
                self.total_memory_mb as nat,
            ),
            r@[4].0@ == "available_memory_mb"@ && r@[4].1@ == spec_decimal(
                self.available_memory_mb as nat,
            ),
            r@[5].0@ == "cpu_model"@ && r@[5].1@ == self.cpu_model@,
            r@[6].0@ == "cpu_cores"@ && r@[6].1@ == spec_decimal(self.cpu_cores as nat),
            r@[7].0@ == "mac_address_hash"@ && r@[7].1@ == self.mac_address_hash@,
            r@[8].0@ == "ip_address"@ && r@[8].1@ == self.ip_address@,
            r@[9].0@ == "collected_at"@ && r@[9].1@ == self.collected_at@,
    {
        let mut fields: Vec<(String, String)> = Vec::new();
        fields.push((String::from_str("os_name"), self.os_name.clone()));
        fields.push((String::from_str("os_version"), self.os_version.clone()));
        fields.push((String::from_str("architecture"), self.architecture.clone()));
        fields.push((String::from_str("total_memory_mb"), decimal_string(self.total_memory_mb)));
        fields.push(
            (String::from_str("available_memory_mb"), decimal_string(self.available_memory_mb)),
        );
        fields.push((String::from_str("cpu_model"), self.cpu_model.clone()));
        fields.push((String::from_str("cpu_cores"), decimal_string(self.cpu_cores as u64)));
        fields.push((String::from_str("mac_address_hash"), self.mac_address_hash.clone()));
        fields.push((String::from_str("ip_address"), self.ip_address.clone()));
        fields.push((String::from_str("collected_at"), self.collected_at.clone()));
        fields
    }
}

} // verus!
