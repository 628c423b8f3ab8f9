//! Server start-up decisions.
//!
//! The embedding application binds the sockets and spawns the services; this
//! module decides the two ports and which of the machine's addresses makes
//! the connection URL that remote clients are shown.

use vstd::prelude::*;
use crate::codec::{push_dec_u64, push_lit, spec_dec_nat};
use crate::text::lit_bytes;

verus! {

/// The port remote clients are pointed at unless the embedder chooses
/// another; the WebSocket gateway always sits one above the HTTP surface.
pub const DEFAULT_REMOTE_PORT: u16 = 8765;

/// The two ports of one server: the HTTP surface on `base`, the WebSocket
/// gateway right above it.
pub fn server_ports(base: u16) -> (r: (u16, u16))
    requires
        base < 65535,
    ensures
        r.0 == base,
        r.1 == base + 1,
{
    (base, base + 1)
}

/// Does `s` begin with `p`?
pub open spec fn spec_starts_with(s: Seq<u8>, p: Seq<u8>) -> bool {
    s.len() >= p.len() && s.take(p.len() as int) == p
}

/// Does the byte string begin with the ASCII literal `p`?
pub fn starts_with_lit(s: &[u8], p: &str) -> (r: bool)
    requires
        vstd::string::is_ascii(p),
    ensures
        r == spec_starts_with(s@, lit_bytes(p@)),
{
    let pb = crate::text::ascii_lit(p);
    if s.len() < pb.len() {
        return false;
    }
    let n: usize = pb.len();
    let mut i: usize = 0;
    while i < n
        invariant
            pb@ == lit_bytes(p@),
            n == pb@.len() <= s@.len(),
            i <= n,
            forall|j: int| 0 <= j < i ==> s@[j] == pb@[j],
        decreases n - i,
    {
        if s[i] != pb[i] {
            proof {
                if spec_starts_with(s@, lit_bytes(p@)) {
                    assert(s@.take(n as int) == lit_bytes(p@));
                    assert(s@.take(n as int)[i as int] == s@[i as int]);
                    assert(false);
                }
            }
            return false;
        }
        i = i + 1;
    }
    proof {
        assert(s@.take(n as int) =~= pb@);
    }
    true
}

/// A private-range address worth advertising on the local network: one of
/// the `192.168.`, `10.` or `172.` blocks, and not a loopback.
pub open spec fn spec_is_lan(ip: Seq<u8>) -> bool {
    (spec_starts_with(ip, lit_bytes("192.168."@)) || spec_starts_with(ip, lit_bytes("10."@))
        || spec_starts_with(ip, lit_bytes("172."@))) && !spec_starts_with(ip, lit_bytes("127."@))
}

/// Is this address worth advertising?
pub fn is_lan_ip(ip: &[u8]) -> (r: bool)
    ensures
        r == spec_is_lan(ip@),
{
    proof {
        reveal_strlit("192.168.");
        reveal_strlit("10.");
        reveal_strlit("172.");
        reveal_strlit("127.");
    }
    (starts_with_lit(ip, "192.168.") || starts_with_lit(ip, "10.") || starts_with_lit(ip, "172."))
        && !starts_with_lit(ip, "127.")
}

/// The first of the machine's addresses worth advertising, if any.
pub fn pick_lan_ip(ips: &Vec<Vec<u8>>) -> (r: Option<usize>)
    ensures
        match r {
            Some(i) => i < ips@.len() && spec_is_lan(ips@[i as int]@) && (forall|j: int|
                0 <= j < i ==> !spec_is_lan(ips@[j]@)),
            None => forall|j: int| 0 <= j < ips@.len() ==> !spec_is_lan(ips@[j]@),
        },
{
    let n: usize = ips.len();
    let mut i: usize = 0;
    while i < n
        invariant
            n == ips@.len(),
            i <= n,
            forall|j: int| 0 <= j < i ==> !spec_is_lan(ips@[j]@),
        decreases n - i,
    {
        if is_lan_ip(ips[i].as_slice()) {
            return Some(i);
        }
        i = i + 1;
    }
    None
}

/// The URL remote clients are shown: `http://<address>:<port>`.
pub fn connection_url(ip: &[u8], port: u16) -> (r: Vec<u8>)
    ensures
        r@ == lit_bytes("http://"@) + ip@ + lit_bytes(":"@) + spec_dec_nat(port as int),
{
    proof {
        reveal_strlit("http://");
        reveal_strlit(":");
    }
    let mut out: Vec<u8> = Vec::new();
    push_lit(&mut out, "http://");
    out.extend_from_slice(ip);
    push_lit(&mut out, ":");
    push_dec_u64(&mut out, port as u64);
    proof {
        assert(out@ =~= lit_bytes("http://"@) + ip@ + lit_bytes(":"@) + spec_dec_nat(port as int));
    }
    out
}

} // verus!
