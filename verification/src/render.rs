//! Rendering of the responses served by the status endpoint.
//!
//! Everything is produced as plain bytes: decimal numbers, the dotted-decimal
//! IPv4 form, the colon-separated uppercase-hex MAC form, and the JSON status
//! body assembled from them.

use vstd::prelude::*;
use vstd::string::StringSliceAdditionalSpecFns;
use crate::link::WifiState;

verus! {

/// ASCII decimal digit of a value below ten.
pub open spec fn spec_digit(n: nat) -> u8 {
    (48 + n) as u8
}

/// Decimal digits of `n`, most significant first, no leading zeros.
pub open spec fn spec_dec(n: nat) -> Seq<u8>
    decreases n,
{
    if n < 10 {
        seq![spec_digit(n)]
    } else {
        spec_dec(n / 10) + seq![spec_digit(n % 10)]
    }
}

/// Uppercase hex digit of a value below sixteen.
pub open spec fn spec_hex_digit(n: nat) -> u8 {
    if n < 10 {
        (48 + n) as u8
    } else {
        (55 + n) as u8
    }
}

/// The two uppercase hex digits of one byte.
pub open spec fn spec_hex_byte(b: u8) -> Seq<u8> {
    seq![spec_hex_digit(b as nat / 16), spec_hex_digit(b as nat % 16)]
}

/// Colon-separated uppercase-hex rendering of a MAC address.
pub open spec fn spec_mac(mac: Seq<u8>) -> Seq<u8> {
    spec_hex_byte(mac[0]) + seq![58u8] + spec_hex_byte(mac[1]) + seq![58u8] + spec_hex_byte(
        mac[2],
    ) + seq![58u8] + spec_hex_byte(mac[3]) + seq![58u8] + spec_hex_byte(mac[4]) + seq![58u8]
        + spec_hex_byte(mac[5])
}

/// Dotted-decimal rendering of an IPv4 address.
pub open spec fn spec_ipv4(ip: Seq<u8>) -> Seq<u8> {
    spec_dec(ip[0] as nat) + seq![46u8] + spec_dec(ip[1] as nat) + seq![46u8] + spec_dec(
        ip[2] as nat,
    ) + seq![46u8] + spec_dec(ip[3] as nat)
}

/// The JSON body of the status resource.
pub open spec fn spec_state_json(
    ip: Option<[u8; 4]>,
    mac: Seq<u8>,
    free_heap: u64,
    counter: u64,
) -> Seq<u8> {
    ("{\"message\":\"Hello from ESP32!\",\"free_heap\":").spec_bytes() + spec_dec(free_heap as nat)
        + (",\"ip_address\":").spec_bytes() + (match ip {
        Some(a) => ("\"").spec_bytes() + spec_ipv4(a@) + ("\"").spec_bytes(),
        None => ("null").spec_bytes(),
    }) + (",\"mac_address\":\"").spec_bytes() + spec_mac(mac) + ("\",\"counter\":").spec_bytes()
        + spec_dec(counter as nat) + ("}").spec_bytes()
}

/// Appends the bytes of `s` to `out`.
fn push_bytes(out: &mut Vec<u8>, s: &str)
    ensures
        final(out)@ == old(out)@ + s.spec_bytes(),
{
    let mut v = vstd::slice::slice_to_vec(s.as_bytes());
    out.append(&mut v);
}

/// The decimal digits of `n`, most significant first.
pub fn u64_to_dec(n: u64) -> (digits: Vec<u8>)
    ensures
        digits@ == spec_dec(n as nat),
{
    let mut rev: Vec<u8> = Vec::new();
    let mut cur: u64 = n;
    while cur >= 10
        invariant
            spec_dec(n as nat) == spec_dec(cur as nat) + rev@.reverse(),
        decreases cur,
    {
        let d: u8 = (48 + (cur % 10)) as u8;
        proof {
            assert(rev@.push(d).reverse() =~= seq![d] + rev@.reverse());
            assert(spec_dec((cur / 10) as nat) + (seq![d] + rev@.reverse()) =~= (spec_dec(
                (cur / 10) as nat,
            ) + seq![d]) + rev@.reverse());
        }
        rev.push(d);
        cur = cur / 10;
    }
    let mut digits: Vec<u8> = Vec::new();
    digits.push((48 + cur) as u8);
    proof {
        assert(digits@ =~= spec_dec(cur as nat));
        assert(rev@.reverse().take(0) =~= Seq::<u8>::empty());
        assert(digits@ + rev@.reverse().take(0) =~= digits@);
    }
    let mut taken: usize = 0;
    while taken < rev.len()
        invariant
            taken <= rev@.len(),
            digits@ == spec_dec(cur as nat) + rev@.reverse().take(taken as int),
            spec_dec(n as nat) == spec_dec(cur as nat) + rev@.reverse(),
        decreases rev@.len() - taken,
    {
        let j = rev.len() - 1 - taken;
        proof {
            assert(rev@.reverse()[taken as int] == rev@[j as int]);
            assert(rev@.reverse().take(taken as int + 1) =~= rev@.reverse().take(
                taken as int,
            ).push(rev@[j as int]));
            assert((spec_dec(cur as nat) + rev@.reverse().take(taken as int)).push(rev@[j as int])
                =~= spec_dec(cur as nat) + rev@.reverse().take(taken as int + 1));
        }
        let d = rev[j];
        digits.push(d);
        taken = taken + 1;
    }
    proof {
        assert(rev@.reverse().take(rev@.len() as int) =~= rev@.reverse());
    }
    digits
}

/// Appends the decimal rendering of `n` to `out`.
fn push_dec(out: &mut Vec<u8>, n: u64)
    ensures
        final(out)@ == old(out)@ + spec_dec(n as nat),
{
    let mut d = u64_to_dec(n);
    out.append(&mut d);
}

/// Appends the two hex digits of `b` to `out`.
fn push_hex_byte(out: &mut Vec<u8>, b: u8)
    ensures
        final(out)@ == old(out)@ + spec_hex_byte(b),
{
    let hi = b / 16;
    let lo = b % 16;
    out.push(if hi < 10 { 48 + hi } else { 55 + hi });
    out.push(if lo < 10 { 48 + lo } else { 55 + lo });
    proof {
        assert(out@ =~= old(out)@ + spec_hex_byte(b));
    }
}

/// Renders a MAC address as colon-separated uppercase hex pairs.
pub fn format_mac(mac: &[u8; 6]) -> (v: Vec<u8>)
    ensures
        v@ == spec_mac(mac@),
{
    let mut v: Vec<u8> = Vec::new();
    push_hex_byte(&mut v, mac[0]);
    v.push(58);
    push_hex_byte(&mut v, mac[1]);
    v.push(58);
    push_hex_byte(&mut v, mac[2]);
    v.push(58);
    push_hex_byte(&mut v, mac[3]);
    v.push(58);
    push_hex_byte(&mut v, mac[4]);
    v.push(58);
    push_hex_byte(&mut v, mac[5]);
    proof {
        assert(v@ =~= spec_mac(mac@));
    }
    v
}

/// Renders an IPv4 address in dotted-decimal form.
pub fn format_ipv4(ip: &[u8; 4]) -> (v: Vec<u8>)
    ensures
        v@ == spec_ipv4(ip@),
{
    let mut v: Vec<u8> = Vec::new();
    push_dec(&mut v, ip[0] as u64);
    v.push(46);
    push_dec(&mut v, ip[1] as u64);
    v.push(46);
    push_dec(&mut v, ip[2] as u64);
    v.push(46);
    push_dec(&mut v, ip[3] as u64);
    proof {
        assert(v@ =~= spec_ipv4(ip@));
    }
    v
}

/// Builds the JSON body of the status resource from a link-state snapshot,
/// the runtime's free-heap reading, and the request counter.
pub fn state_json(state: &WifiState, free_heap: u64, counter: u64) -> (v: Vec<u8>)
    ensures
        v@ == spec_state_json(state.ip_addr, state.mac_address@, free_heap, counter),
{
    let mut v: Vec<u8> = Vec::new();
    push_bytes(&mut v, "{\"message\":\"Hello from ESP32!\",\"free_heap\":");
    push_dec(&mut v, free_heap);
    push_bytes(&mut v, ",\"ip_address\":");
    match state.ip_addr {
        Some(ip) => {
            push_bytes(&mut v, "\"");
            let mut d = format_ipv4(&ip);
            v.append(&mut d);
            push_bytes(&mut v, "\"");
        },
        None => {
            push_bytes(&mut v, "null");
        },
    }
    push_bytes(&mut v, ",\"mac_address\":\"");
    let mut m = format_mac(&state.mac_address);
    v.append(&mut m);
    push_bytes(&mut v, "\",\"counter\":");
    push_dec(&mut v, counter);
    push_bytes(&mut v, "}");
    proof {
        assert(v@ =~= spec_state_json(state.ip_addr, state.mac_address@, free_heap, counter));
    }
    v
}

/// Body of the liveness probe route.
pub fn greeting() -> (r: &'static str)
    ensures
        r@ == "Hello!"@,
{
    "Hello!"
}

} // verus!
