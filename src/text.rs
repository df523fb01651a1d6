//! Decimal rendering of integers and the textual forms built from it.

use vstd::prelude::*;

verus! {

pub open spec fn digit(d: nat) -> char {
    seq!['0', '1', '2', '3', '4', '5', '6', '7', '8', '9'][d as int]
}

/// `n` in base ten, without sign or leading zeros.
pub open spec fn decimal(n: nat) -> Seq<char>
    decreases n,
{
    if n < 10 {
        seq![digit(n)]
    } else {
        decimal(n / 10).push(digit(n % 10))
    }
}

/// An IPv4 address in dotted-quad form, `a.b.c.d`.
pub open spec fn dotted_quad(ip: Seq<u8>) -> Seq<char> {
    decimal(ip[0] as nat) + seq!['.'] + decimal(ip[1] as nat) + seq!['.'] + decimal(ip[2] as nat)
        + seq!['.'] + decimal(ip[3] as nat)
}

/// `host:port`.
pub open spec fn host_port(host: Seq<char>, port: nat) -> Seq<char> {
    host + seq![':'] + decimal(port)
}

/// Relies on `u32`'s `Display` (through `to_string`): base ten, no sign,
/// no leading zeros.
#[verifier::external_body]
pub(crate) fn decimal_text(n: u32) -> (r: String)
    ensures
        r@ == decimal(n as nat),
{
    n.to_string()
}

pub fn dotted_quad_text(ip: &[u8; 4]) -> (r: String)
    ensures
        r@ == dotted_quad(ip@),
{
    let mut s = decimal_text(ip[0] as u32);
    s.append(".");
    s.append(decimal_text(ip[1] as u32).as_str());
    s.append(".");
    s.append(decimal_text(ip[2] as u32).as_str());
    s.append(".");
    s.append(decimal_text(ip[3] as u32).as_str());
    proof {
        reveal_strlit(".");
    }
    s
}

pub fn host_port_text(host: &str, port: u16) -> (r: String)
    ensures
        r@ == host_port(host@, port as nat),
{
    let mut s = host.to_owned();
    s.append(":");
    s.append(decimal_text(port as u32).as_str());
    proof {
        reveal_strlit(":");
    }
    s
}

} // verus!
