//! Serialization of outbound protocol messages.
//!
//! Every status snapshot leaves the server as one JSON text, whose exact
//! bytes are pinned down by `spec_ser_status`: the broadcast payload, the
//! first message of a fresh connection, the command feedback and the
//! `/status` response are all this one rendering.  The acknowledgement
//! envelope of `POST /command` is pinned by `spec_ser_ack` in the same way.
//! Numbers in thousandths render as plain decimals (`1000` as `1.0`,
//! `1250` as `1.25`), string bytes are escaped as JSON asks.

use vstd::prelude::*;
use crate::status::{RemoteStatus, StatusView};
use crate::text::{ascii_lit, lit_bytes};

verus! {

/// Decimal digits of a non-negative integer.
pub open spec fn spec_dec_nat(n: int) -> Seq<u8>
    decreases n,
{
    if n <= 9 {
        seq![(48 + if n < 0 { 0int } else { n }) as u8]
    } else {
        spec_dec_nat(n / 10) + seq![(48 + n % 10) as u8]
    }
}

/// Decimal rendering of a signed integer.
pub open spec fn spec_dec_int(n: int) -> Seq<u8> {
    if n < 0 {
        seq![45u8] + spec_dec_nat(-n)
    } else {
        spec_dec_nat(n)
    }
}

/// The digit byte of a hexadecimal value below 16, lower case.
pub open spec fn spec_hex_digit(x: int) -> u8 {
    if x < 10 {
        (48 + if x < 0 { 0int } else { x }) as u8
    } else {
        (87 + if x > 15 { 15int } else { x }) as u8
    }
}

/// The fraction part of a number in thousandths, with trailing zeros
/// trimmed but at least one digit, so that the number always reads as a
/// decimal fraction (`.0`, `.5`, `.25`, `.125`).
pub open spec fn spec_dec_frac(f: int) -> Seq<u8> {
    if f <= 0 {
        seq![46u8, 48u8]
    } else if f % 10 != 0 {
        seq![46u8, (48 + f / 100) as u8, (48 + (f / 10) % 10) as u8, (48 + f % 10) as u8]
    } else if f % 100 != 0 {
        seq![46u8, (48 + f / 100) as u8, (48 + (f / 10) % 10) as u8]
    } else {
        seq![46u8, (48 + f / 100) as u8]
    }
}

/// Decimal rendering of a number held in thousandths.
pub open spec fn spec_dec_milli(m: int) -> Seq<u8> {
    if m < 0 {
        seq![45u8] + spec_dec_nat((-m) / 1000) + spec_dec_frac((-m) % 1000)
    } else {
        spec_dec_nat(m / 1000) + spec_dec_frac(m % 1000)
    }
}

/// The JSON escape of one string byte.
pub open spec fn spec_escape_byte(b: u8) -> Seq<u8> {
    if b == 34 {
        seq![92u8, 34u8]
    } else if b == 92 {
        seq![92u8, 92u8]
    } else if b == 8 {
        seq![92u8, 98u8]
    } else if b == 12 {
        seq![92u8, 102u8]
    } else if b == 10 {
        seq![92u8, 110u8]
    } else if b == 13 {
        seq![92u8, 114u8]
    } else if b == 9 {
        seq![92u8, 116u8]
    } else if b < 32 {
        seq![92u8, 117u8, 48u8, 48u8, spec_hex_digit(b as int / 16), spec_hex_digit(b as int % 16)]
    } else {
        seq![b]
    }
}

/// The JSON escape of a whole string, byte for byte.
pub open spec fn spec_escape(s: Seq<u8>) -> Seq<u8>
    decreases s.len(),
{
    if s.len() == 0 {
        seq![]
    } else {
        spec_escape(s.drop_last()) + spec_escape_byte(s.last())
    }
}

/// `true` or `false`.
pub open spec fn spec_bool_bytes(b: bool) -> Seq<u8> {
    if b {
        lit_bytes("true"@)
    } else {
        lit_bytes("false"@)
    }
}

/// The one JSON rendering of a status snapshot, field order fixed.
pub open spec fn spec_ser_status(st: StatusView) -> Seq<u8> {
    lit_bytes("{\"is_playing\":"@) + spec_bool_bytes(st.is_playing)
        + lit_bytes(",\"current_speed\":"@) + spec_dec_milli(st.current_speed_milli)
        + lit_bytes(",\"current_segment\":"@) + (match st.current_segment {
        Some(s) => spec_dec_nat(s),
        None => lit_bytes("null"@),
    }) + lit_bytes(",\"total_segments\":"@) + spec_dec_nat(st.total_segments)
        + lit_bytes(",\"project_name\":\""@) + spec_escape(st.project_name)
        + lit_bytes("\",\"timestamp\":"@) + spec_dec_int(st.timestamp)
        + lit_bytes(",\"connected_clients\":"@) + spec_dec_nat(st.connected_clients)
        + lit_bytes(",\"is_live\":"@) + spec_bool_bytes(st.is_live)
        + lit_bytes("}"@)
}

/// The acknowledgement envelope of `POST /command`, for the command named
/// `name`, stamped `ts`.
pub open spec fn spec_ser_ack(name: Seq<u8>, ts: int) -> Seq<u8> {
    lit_bytes("{\"command\":\""@) + spec_escape(name)
        + lit_bytes("\",\"message\":\"Command executed\",\"success\":true,\"timestamp\":"@)
        + spec_dec_int(ts) + lit_bytes("}"@)
}

/// Append the ASCII literal `s`.
pub(crate) fn push_lit(out: &mut Vec<u8>, s: &str)
    requires
        vstd::string::is_ascii(s),
    ensures
        final(out)@ == old(out)@ + lit_bytes(s@),
{
    out.extend_from_slice(ascii_lit(s));
}

/// Append the decimal digits of `n`.
pub(crate) fn push_dec_u64(out: &mut Vec<u8>, n: u64)
    ensures
        final(out)@ == old(out)@ + spec_dec_nat(n as int),
    decreases n,
{
    if n <= 9 {
        out.push(48 + n as u8);
        proof {
            assert(final(out)@ =~= old(out)@ + spec_dec_nat(n as int));
        }
    } else {
        push_dec_u64(out, n / 10);
        out.push(48 + (n % 10) as u8);
        proof {
            assert(final(out)@ =~= old(out)@ + spec_dec_nat(n as int));
        }
    }
}

/// Append the decimal rendering of `n`.
fn push_dec_i64(out: &mut Vec<u8>, n: i64)
    ensures
        final(out)@ == old(out)@ + spec_dec_int(n as int),
{
    if n >= 0 {
        push_dec_u64(out, n as u64);
    } else {
        out.push(45);
        let mag: u64 = if n == i64::MIN {
            9223372036854775808u64
        } else {
            (-n) as u64
        };
        push_dec_u64(out, mag);
        proof {
            assert(final(out)@ =~= old(out)@ + spec_dec_int(n as int));
        }
    }
}

/// Append the decimal rendering of a non-negative value in thousandths.
fn push_milli_mag(out: &mut Vec<u8>, mag: u64)
    ensures
        final(out)@ == old(out)@ + spec_dec_nat(mag as int / 1000) + spec_dec_frac(
            mag as int % 1000,
        ),
{
    push_dec_u64(out, mag / 1000);
    let f: u64 = mag % 1000;
    if f == 0 {
        out.push(46);
        out.push(48);
    } else if f % 10 != 0 {
        out.push(46);
        out.push(48 + (f / 100) as u8);
        out.push(48 + ((f / 10) % 10) as u8);
        out.push(48 + (f % 10) as u8);
    } else if f % 100 != 0 {
        out.push(46);
        out.push(48 + (f / 100) as u8);
        out.push(48 + ((f / 10) % 10) as u8);
    } else {
        out.push(46);
        out.push(48 + (f / 100) as u8);
    }
    proof {
        assert(final(out)@ =~= old(out)@ + spec_dec_nat(mag as int / 1000) + spec_dec_frac(
            mag as int % 1000,
        ));
    }
}

/// Append the decimal rendering of a value in thousandths.
fn push_milli(out: &mut Vec<u8>, m: i64)
    ensures
        final(out)@ == old(out)@ + spec_dec_milli(m as int),
{
    if m >= 0 {
        push_milli_mag(out, m as u64);
        proof {
            assert(final(out)@ =~= old(out)@ + spec_dec_milli(m as int));
        }
    } else {
        out.push(45);
        let mag: u64 = if m == i64::MIN {
            9223372036854775808u64
        } else {
            (-m) as u64
        };
        push_milli_mag(out, mag);
        proof {
            assert(final(out)@ =~= old(out)@ + spec_dec_milli(m as int));
        }
    }
}

/// Append `true` or `false`.
fn push_bool(out: &mut Vec<u8>, b: bool)
    ensures
        final(out)@ == old(out)@ + spec_bool_bytes(b),
{
    proof {
        reveal_strlit("true");
        reveal_strlit("false");
    }
    if b {
        push_lit(out, "true");
    } else {
        push_lit(out, "false");
    }
}

/// Append the JSON escape of the string bytes `s`.
fn push_escaped(out: &mut Vec<u8>, s: &[u8])
    ensures
        final(out)@ == old(out)@ + spec_escape(s@),
{
    let n: usize = s.len();
    let mut i: usize = 0;
    while i < n
        invariant
            n == s@.len(),
            i <= n,
            out@ == old(out)@ + spec_escape(s@.take(i as int)),
        decreases n - i,
    {
        let b: u8 = s[i];
        if b == 34 {
            out.push(92);
            out.push(34);
        } else if b == 92 {
            out.push(92);
            out.push(92);
        } else if b == 8 {
            out.push(92);
            out.push(98);
        } else if b == 12 {
            out.push(92);
            out.push(102);
        } else if b == 10 {
            out.push(92);
            out.push(110);
        } else if b == 13 {
            out.push(92);
            out.push(114);
        } else if b == 9 {
            out.push(92);
            out.push(116);
        } else if b < 32 {
            out.push(92);
            out.push(117);
            out.push(48);
            out.push(48);
            let hi: u8 = b / 16;
            let lo: u8 = b % 16;
            out.push(if hi < 10 { 48 + hi } else { 87 + hi });
            out.push(if lo < 10 { 48 + lo } else { 87 + lo });
        } else {
            out.push(b);
        }
        proof {
            assert(s@.take(i + 1 as int).drop_last() =~= s@.take(i as int));
            assert(s@.take(i + 1 as int).last() == s@[i as int]);
            assert(out@ =~= old(out)@ + spec_escape(s@.take(i + 1 as int)));
        }
        i = i + 1;
    }
    proof {
        assert(s@.take(n as int) =~= s@);
    }
}

/// The JSON text of a status snapshot, exactly `spec_ser_status`.
pub fn render_status(st: &RemoteStatus) -> (r: Vec<u8>)
    ensures
        r@ == spec_ser_status(st@),
{
    proof {
        reveal_strlit("{\"is_playing\":");
        reveal_strlit(",\"current_speed\":");
        reveal_strlit(",\"current_segment\":");
        reveal_strlit("null");
        reveal_strlit(",\"total_segments\":");
        reveal_strlit(",\"project_name\":\"");
        reveal_strlit("\",\"timestamp\":");
        reveal_strlit(",\"connected_clients\":");
        reveal_strlit(",\"is_live\":");
        reveal_strlit("}");
    }
    let mut out: Vec<u8> = Vec::new();
    push_lit(&mut out, "{\"is_playing\":");
    push_bool(&mut out, st.is_playing);
    push_lit(&mut out, ",\"current_speed\":");
    push_milli(&mut out, st.current_speed_milli);
    push_lit(&mut out, ",\"current_segment\":");
    match st.current_segment {
        Some(s) => push_dec_u64(&mut out, s),
        None => push_lit(&mut out, "null"),
    }
    push_lit(&mut out, ",\"total_segments\":");
    push_dec_u64(&mut out, st.total_segments);
    push_lit(&mut out, ",\"project_name\":\"");
    push_escaped(&mut out, st.project_name.as_slice());
    push_lit(&mut out, "\",\"timestamp\":");
    push_dec_i64(&mut out, st.timestamp);
    push_lit(&mut out, ",\"connected_clients\":");
    push_dec_u64(&mut out, st.connected_clients);
    push_lit(&mut out, ",\"is_live\":");
    push_bool(&mut out, st.is_live);
    push_lit(&mut out, "}");
    proof {
        assert(out@ =~= spec_ser_status(st@));
    }
    out
}

/// The acknowledgement JSON of `POST /command`, exactly `spec_ser_ack`.
pub fn render_ack(name: &[u8], ts: i64) -> (r: Vec<u8>)
    ensures
        r@ == spec_ser_ack(name@, ts as int),
{
    proof {
        reveal_strlit("{\"command\":\"");
        reveal_strlit("\",\"message\":\"Command executed\",\"success\":true,\"timestamp\":");
        reveal_strlit("}");
    }
    let mut out: Vec<u8> = Vec::new();
    push_lit(&mut out, "{\"command\":\"");
    push_escaped(&mut out, name);
    push_lit(&mut out, "\",\"message\":\"Command executed\",\"success\":true,\"timestamp\":");
    push_dec_i64(&mut out, ts);
    push_lit(&mut out, "}");
    proof {
        assert(out@ =~= spec_ser_ack(name@, ts as int));
    }
    out
}

} // verus!
