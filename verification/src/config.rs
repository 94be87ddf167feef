//! Mapping configuration: hardware addresses, resolved targets, and the
//! validation that must succeed before any listener starts.

use vstd::prelude::*;

verus! {

/// True when `b` is an ASCII hexadecimal digit.
pub open spec fn is_hex_digit(b: u8) -> bool {
    (48 <= b && b <= 57)  // '0'..'9'
    || (97 <= b && b <= 102)  // 'a'..'f'
    || (65 <= b && b <= 70)  // 'A'..'F'
}

/// Numeric value of an ASCII hexadecimal digit.
pub open spec fn hex_value(b: u8) -> u8 {
    if 48 <= b && b <= 57 {
        (b - 48) as u8
    } else if 97 <= b && b <= 102 {
        (b - 97 + 10) as u8
    } else {
        (b - 65 + 10) as u8
    }
}

/// The `k`-th group of a textual hardware address is well-formed: two
/// hexadecimal digits at positions `3k` and `3k + 1`, followed by a colon
/// (byte 58) unless it is the last group.
pub open spec fn mac_group_ok(s: Seq<u8>, k: int) -> bool {
    is_hex_digit(s[3 * k]) && is_hex_digit(s[3 * k + 1]) && (k < 5 ==> s[3 * k + 2] == 58)
}

/// A well-formed textual hardware address: six colon-separated groups of
/// two hexadecimal digits, 17 bytes in all.
pub open spec fn is_valid_mac_text(s: Seq<u8>) -> bool {
    s.len() == 17 && (forall|k: int| 0 <= k < 6 ==> #[trigger] mac_group_ok(s, k))
}

/// The octet denoted by the `k`-th group of a textual hardware address.
pub open spec fn mac_octet(s: Seq<u8>, k: int) -> u8 {
    (hex_value(s[3 * k]) * 16 + hex_value(s[3 * k + 1])) as u8
}

/// A six-octet hardware (MAC) address.
#[derive(Clone, Copy, Debug, PartialEq, Eq)]
pub struct MacAddr {
    pub octets: [u8; 6],
}

impl View for MacAddr {
    type V = Seq<u8>;

    open spec fn view(&self) -> Seq<u8> {
        self.octets@
    }
}

/// Numeric value of one ASCII hexadecimal digit, or `None` when `b` is
/// not such a digit.
pub fn hex_digit_value(b: u8) -> (r: Option<u8>)
    ensures
        r is Some <==> is_hex_digit(b),
        r is Some ==> r->0 == hex_value(b) && r->0 < 16,
{
    if 48 <= b && b <= 57 {
        Some(b - 48)
    } else if 97 <= b && b <= 102 {
        Some(b - 97 + 10)
    } else if 65 <= b && b <= 70 {
        Some(b - 65 + 10)
    } else {
        None
    }
}

/// Parses the `k`-th group of a 17-byte textual hardware address: the
/// octet's two digits, plus the separating colon where one is due.
fn parse_mac_group(s: &[u8], k: usize) -> (r: Option<u8>)
    requires
        s@.len() == 17,
        k < 6,
    ensures
        r is Some <==> mac_group_ok(s@, k as int),
        r is Some ==> r->0 == mac_octet(s@, k as int),
{
    let hi = match hex_digit_value(s[3 * k]) {
        Some(v) => v,
        None => {
            return None;
        },
    };
    let lo = match hex_digit_value(s[3 * k + 1]) {
        Some(v) => v,
        None => {
            return None;
        },
    };
    if k < 5 && s[3 * k + 2] != 58 {
        return None;
    }
    Some(hi * 16 + lo)
}

impl MacAddr {
    /// Parses a textual hardware address of the form `"b4:2e:99:82:34:5a"`:
    /// six colon-separated hexadecimal octets. Returns `None` exactly on
    /// malformed input.
    pub fn parse(s: &[u8]) -> (r: Option<MacAddr>)
        ensures
            r is Some <==> is_valid_mac_text(s@),
            r is Some ==> forall|k: int| 0 <= k < 6 ==> r->0@[k] == #[trigger] mac_octet(s@, k),
    {
        if s.len() != 17 {
            assert(!is_valid_mac_text(s@));
            return None;
        }
        let o0 = match parse_mac_group(s, 0) {
            Some(v) => v,
            None => {
                return None;
            },
        };
        let o1 = match parse_mac_group(s, 1) {
            Some(v) => v,
            None => {
                return None;
            },
        };
        let o2 = match parse_mac_group(s, 2) {
            Some(v) => v,
            None => {
                return None;
            },
        };
        let o3 = match parse_mac_group(s, 3) {
            Some(v) => v,
            None => {
                return None;
            },
        };
        let o4 = match parse_mac_group(s, 4) {
            Some(v) => v,
            None => {
                return None;
            },
        };
        let o5 = match parse_mac_group(s, 5) {
            Some(v) => v,
            None => {
                return None;
            },
        };
        let mac = MacAddr { octets: [o0, o1, o2, o3, o4, o5] };
        assert forall|k: int| 0 <= k < 6 implies #[trigger] mac_group_ok(s@, k) by {
            assert(mac_group_ok(s@, 0));
            assert(mac_group_ok(s@, 1));
            assert(mac_group_ok(s@, 2));
            assert(mac_group_ok(s@, 3));
            assert(mac_group_ok(s@, 4));
            assert(mac_group_ok(s@, 5));
        }
        Some(mac)
    }
}

/// A resolved target host, either address family, held as plain numbers.
#[derive(Clone, Copy, Debug, PartialEq, Eq)]
pub enum TargetIp {
    V4 { octets: [u8; 4] },
    V6 { segments: [u16; 8] },
}

/// A resolved target: host plus TCP port. Produced once at configuration
/// time; every connection attempt goes to this address.
#[derive(Clone, Copy, Debug, PartialEq, Eq)]
pub struct TargetAddr {
    pub ip: TargetIp,
    pub port: u16,
}

/// One forwarding rule: inbound connections on `local_port` are relayed
/// to `target_address`, waking the host at `mac_address` when the first
/// connect attempt fails. `awake_delay` bounds the number of post-wake
/// connect attempts; zero means the wake is fire-and-forget and the
/// connection fails immediately when the direct attempt did.
#[derive(Clone, Copy, Debug, PartialEq, Eq)]
pub struct ProxyMapping {
    pub local_port: u16,
    pub target_address: TargetAddr,
    pub mac_address: MacAddr,
    pub awake_delay: u64,
}

/// A configuration mistake that must abort startup before any listener
/// binds.
#[derive(Clone, Copy, Debug, PartialEq, Eq)]
pub enum ConfigError {
    /// The textual hardware address does not parse as six colon-separated
    /// hexadecimal octets.
    InvalidMacAddress,
    /// Two mappings claim the same local port; the offending port is named.
    DuplicateLocalPort { port: u16 },
}

impl ProxyMapping {
    /// Builds one validated mapping from the raw configuration fields. The
    /// target must already be resolved to a concrete address; the hardware
    /// address is still text and is parsed here. Fails exactly on a
    /// malformed hardware address.
    pub fn build(local_port: u16, target_address: TargetAddr, mac_text: &[u8], awake_delay: u64) -> (r:
        Result<ProxyMapping, ConfigError>)
        ensures
            r is Ok <==> is_valid_mac_text(mac_text@),
            r matches Ok(m) ==> m.local_port == local_port && m.target_address == target_address
                && m.awake_delay == awake_delay && (forall|k: int|
                0 <= k < 6 ==> m.mac_address@[k] == #[trigger] mac_octet(mac_text@, k)),
            r is Err ==> r matches Err(ConfigError::InvalidMacAddress),
    {
        match MacAddr::parse(mac_text) {
            Some(mac_address) => Ok(
                ProxyMapping { local_port, target_address, mac_address, awake_delay },
            ),
            None => Err(ConfigError::InvalidMacAddress),
        }
    }
}

/// No two mappings share a local port.
pub open spec fn ports_unique(mappings: Seq<ProxyMapping>) -> bool {
    forall|i: int, j: int|
        0 <= i < j < mappings.len() ==> #[trigger] mappings[i].local_port
            != #[trigger] mappings[j].local_port
}

/// The validated mapping list, shared read-only by every listener and
/// connection handler.
#[derive(Clone, Debug, PartialEq, Eq)]
pub struct Config {
    pub mappings: Vec<ProxyMapping>,
}

impl Config {
    /// Accepts a mapping list exactly when every local port is claimed by
    /// at most one mapping; a duplicate is a startup error naming the port.
    pub fn build(mappings: Vec<ProxyMapping>) -> (r: Result<Config, ConfigError>)
        ensures
            r is Ok <==> ports_unique(mappings@),
            r matches Ok(c) ==> c.mappings@ == mappings@,
            r matches Err(e) ==> (e matches ConfigError::DuplicateLocalPort { port } && exists|
                i: int,
                j: int,
            |
                0 <= i < j < mappings@.len() && #[trigger] mappings@[i].local_port == port
                    && #[trigger] mappings@[j].local_port == port),
    {
        let n = mappings.len();
        for i in 0..n
            invariant
                n == mappings@.len(),
                forall|p: int, q: int|
                    0 <= p < q < mappings@.len() && p < i ==> #[trigger] mappings@[p].local_port
                        != #[trigger] mappings@[q].local_port,
        {
            for j in (i + 1)..n
                invariant
                    n == mappings@.len(),
                    i < n,
                    forall|p: int, q: int|
                        0 <= p < q < mappings@.len() && p < i ==> #[trigger] mappings@[p].local_port
                            != #[trigger] mappings@[q].local_port,
                    forall|q: int|
                        i < q < j ==> mappings@[i as int].local_port
                            != #[trigger] mappings@[q].local_port,
            {
                if mappings[i].local_port == mappings[j].local_port {
                    return Err(ConfigError::DuplicateLocalPort { port: mappings[i].local_port });
                }
            }
        }
        Ok(Config { mappings })
    }
}

} // verus!
