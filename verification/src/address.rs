//! IPv4 addresses as four octets.

use vstd::prelude::*;
use crate::text::{append_decimal, decimal, push_char};

verus! {

/// An IPv4 address, most significant octet first.
#[derive(Clone, Copy, Debug, PartialEq, Eq, Structural, Hash)]
pub struct Ipv4 {
    pub a: u8,
    pub b: u8,
    pub c: u8,
    pub d: u8,
}

/// The dotted-decimal text of an address.
pub open spec fn dotted(ip: Ipv4) -> Seq<char> {
    decimal(ip.a as int) + seq!['.'] + decimal(ip.b as int) + seq!['.'] + decimal(ip.c as int)
        + seq!['.'] + decimal(ip.d as int)
}

impl Ipv4 {
    /// Renders the address in dotted-decimal form.
    pub fn to_text(&self) -> (text: String)
        ensures
            text@ == dotted(*self),
    {
        let mut text = String::new();
        append_decimal(&mut text, self.a as i128);
        push_char(&mut text, '.');
        append_decimal(&mut text, self.b as i128);
        push_char(&mut text, '.');
        append_decimal(&mut text, self.c as i128);
        push_char(&mut text, '.');
        append_decimal(&mut text, self.d as i128);
        text
    }

    /// The address `a.b.c.d`.
    pub fn new(a: u8, b: u8, c: u8, d: u8) -> (ip: Ipv4)
        ensures
            ip == (Ipv4 { a, b, c, d }),
    {
        Ipv4 { a, b, c, d }
    }
}

} // verus!
