//! Twenty-byte account identities (allocations and gateways).
use std::str::FromStr;
use vstd::prelude::*;

verus! {

pub open spec fn is_hex_digit(c: char) -> bool {
    ('0' <= c && c <= '9') || ('a' <= c && c <= 'f') || ('A' <= c && c <= 'F')
}

pub open spec fn hex_value(c: char) -> int {
    if '0' <= c && c <= '9' {
        c as int - '0' as int
    } else if 'a' <= c && c <= 'f' {
        c as int - 'a' as int + 10
    } else {
        c as int - 'A' as int + 10
    }
}

/// Characters that hex decoding passes over.
pub open spec fn is_hex_space(c: char) -> bool {
    c == ' ' || c == '\r' || c == '\n' || c == '\t'
}

/// The characters of `s` that carry digits: those after an optional `0x`,
/// without white space.
pub open spec fn hex_digits_of(s: Seq<char>) -> Seq<char> {
    let body = if s.len() >= 2 && s[0] == '0' && s[1] == 'x' {
        s.skip(2)
    } else {
        s
    };
    body.filter(|c: char| !is_hex_space(c))
}

/// The address that `s` spells in hex: exactly forty digits, two per byte,
/// most significant byte first.
pub open spec fn hex_address(s: Seq<char>) -> Option<Seq<u8>> {
    let d = hex_digits_of(s);
    if d.len() == 40 && forall|i: int| 0 <= i < 40 ==> is_hex_digit(#[trigger] d[i]) {
        Some(Seq::new(20, |i: int| (hex_value(d[2 * i]) * 16 + hex_value(d[2 * i + 1])) as u8))
    } else {
        None
    }
}

/// An account identity: twenty bytes, big endian as written in hex.
#[derive(Clone, Copy, Debug)]
pub struct Address {
    pub bytes: [u8; 20],
}

impl View for Address {
    type V = Seq<u8>;

    open spec fn view(&self) -> Seq<u8> {
        self.bytes@
    }
}

/// Relies on `ethereum_types::H160::from_str`: it strips one `0x` prefix,
/// skips white space, and reads exactly forty hex digits of either case into
/// the twenty bytes, first byte first; anything else is refused.
#[verifier::external_body]
fn parse_h160(s: &str) -> (r: Option<[u8; 20]>)
    ensures
        r.is_some() == hex_address(s@).is_some(),
        r.is_some() ==> r.unwrap()@ == hex_address(s@).unwrap(),
{
    ethereum_types::H160::from_str(s).ok().map(|h| h.0)
}

impl Address {
    pub fn new(bytes: [u8; 20]) -> (r: Address)
        ensures
            r.bytes == bytes,
            r@ == bytes@,
    {
        Address { bytes }
    }

    /// Reads an address written in hex, such as `0xabab...ab`.
    pub fn from_hex(s: &str) -> (r: Option<Address>)
        ensures
            r.is_some() == hex_address(s@).is_some(),
            r.is_some() ==> r.unwrap()@ == hex_address(s@).unwrap(),
    {
        match parse_h160(s) {
            Some(bytes) => Some(Address { bytes }),
            None => None,
        }
    }

    /// Byte-wise comparison of two addresses.
    pub fn same_as(&self, other: &Address) -> (r: bool)
        ensures
            r == (self@ == other@),
    {
        let mut i: usize = 0;
        while i < 20
            invariant
                0 <= i <= 20,
                forall|j: int| 0 <= j < i ==> self@[j] == other@[j],
            decreases 20 - i,
        {
            if self.bytes[i] != other.bytes[i] {
                assert(self@[i as int] != other@[i as int]);
                return false;
            }
            i = i + 1;
        }
        assert(self@ =~= other@);
        true
    }
}

impl PartialEq for Address {
    fn eq(&self, other: &Address) -> (r: bool) {
        self.same_as(other)
    }
}

impl vstd::std_specs::cmp::PartialEqSpecImpl for Address {
    open spec fn obeys_eq_spec() -> bool {
        true
    }

    open spec fn eq_spec(&self, other: &Address) -> bool {
        self@ == other@
    }
}

impl Eq for Address {
}

} // verus!
