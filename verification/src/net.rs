//! Conversion of the raw host address word into an address.
//!
//! The network stack stores the launching host's address as one 32-bit
//! word in network byte order, its first octet in the least significant
//! byte. The conversion to octets is an explicit, field-by-field
//! extraction — never a blind reinterpretation of foreign memory.

use crate::console::fmt_u32;
use crate::console::spec_dec_digits;
use vstd::prelude::*;

verus! {

/// The four octets of a raw address word in network byte order, first
/// octet in the least significant byte.
pub open spec fn spec_ipv4_octets(raw: u32) -> Seq<u8> {
    seq![
        (raw & 0xff) as u8,
        ((raw >> 8) & 0xff) as u8,
        ((raw >> 16) & 0xff) as u8,
        ((raw >> 24) & 0xff) as u8,
    ]
}

/// Extracts the four address octets from the raw network-order word,
/// explicitly, octet by octet.
pub fn ipv4_octets(raw: u32) -> (r: (u8, u8, u8, u8))
    ensures
        r.0 == spec_ipv4_octets(raw)[0],
        r.1 == spec_ipv4_octets(raw)[1],
        r.2 == spec_ipv4_octets(raw)[2],
        r.3 == spec_ipv4_octets(raw)[3],
{
    ((raw & 0xff) as u8, ((raw >> 8) & 0xff) as u8, ((raw >> 16) & 0xff) as u8, ((raw >> 24)
        & 0xff) as u8)
}

/// The dotted-decimal text of a raw address word: the four octets in
/// order, separated by dots.
pub open spec fn spec_ipv4_text(raw: u32) -> Seq<u8> {
    spec_dec_digits(spec_ipv4_octets(raw)[0] as nat) + seq![46u8] + spec_dec_digits(
        spec_ipv4_octets(raw)[1] as nat,
    ) + seq![46u8] + spec_dec_digits(spec_ipv4_octets(raw)[2] as nat) + seq![46u8]
        + spec_dec_digits(spec_ipv4_octets(raw)[3] as nat)
}

/// Formats the raw network-order address word as dotted-decimal text.
pub fn format_ipv4(raw: u32) -> (r: Vec<u8>)
    ensures
        r@ == spec_ipv4_text(raw),
{
    let (a, b, c, d) = ipv4_octets(raw);
    let mut r = fmt_u32(a as u32);
    r.push(46);
    let mut t = fmt_u32(b as u32);
    r.append(&mut t);
    r.push(46);
    let mut t = fmt_u32(c as u32);
    r.append(&mut t);
    r.push(46);
    let mut t = fmt_u32(d as u32);
    r.append(&mut t);
    proof {
        assert(r@ =~= spec_ipv4_text(raw));
    }
    r
}

} // verus!
