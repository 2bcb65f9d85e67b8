use vstd::prelude::*;

use crate::error::CosiError;

verus! {

/// A store-native object identifier: twelve bytes, written as 24 hexadecimal
/// digits at the boundary.
#[derive(Clone, Copy, Debug)]
pub struct OID {
    pub bytes: [u8; 12],
}

/// The value of a hexadecimal digit, either case; -1 for any other character.
pub open spec fn hex_digit_value(c: char) -> int {
    if '0' <= c && c <= '9' {
        (c as int) - ('0' as int)
    } else if 'a' <= c && c <= 'f' {
        (c as int) - ('a' as int) + 10
    } else if 'A' <= c && c <= 'F' {
        (c as int) - ('A' as int) + 10
    } else {
        -1
    }
}

/// 24 hexadecimal digits.
pub open spec fn is_hex_id(s: Seq<char>) -> bool {
    &&& s.len() == 24
    &&& forall|i: int| 0 <= i < 24 ==> #[trigger] hex_digit_value(s[i]) >= 0
}

/// The twelve bytes that 24 hexadecimal digits denote, high digit first.
pub open spec fn hex_decode(s: Seq<char>) -> Seq<u8> {
    Seq::new(12, |i: int| (hex_digit_value(s[2 * i]) * 16 + hex_digit_value(s[2 * i + 1])) as u8)
}

/// The lower-case digit for a value below 16.
pub open spec fn lower_hex_digit(n: int) -> char {
    if n < 10 {
        (('0' as int) + n) as char
    } else {
        (('a' as int) + n - 10) as char
    }
}

/// Two lower-case hexadecimal digits for each byte, high digit first.
pub open spec fn hex_encode(b: Seq<u8>) -> Seq<char> {
    Seq::new(
        2 * b.len(),
        |i: int|
            if i % 2 == 0 {
                lower_hex_digit(b[i / 2] as int / 16)
            } else {
                lower_hex_digit(b[i / 2] as int % 16)
            },
    )
}

/// Relies on bson's `ObjectId::parse_str`: it accepts exactly the strings of
/// 24 hexadecimal digits (either case) and decodes each pair into one byte.
#[verifier::external_body]
fn parse_object_id(s: &str) -> (r: Option<[u8; 12]>)
    ensures
        r is Some <==> is_hex_id(s@),
        r matches Some(b) ==> b@ == hex_decode(s@),
{
    mongodb::bson::oid::ObjectId::parse_str(s).ok().map(|o| o.bytes())
}

/// Relies on bson's `ObjectId::to_hex`: two lower-case digits per byte.
#[verifier::external_body]
fn object_id_hex(b: [u8; 12]) -> (r: String)
    ensures
        r@ == hex_encode(b@),
{
    mongodb::bson::oid::ObjectId::from_bytes(b).to_hex()
}

impl OID {
    /// Reads an id from its 24-digit text; fails on anything else.
    pub fn parse(s: &str) -> (r: Result<OID, CosiError>)
        ensures
            r is Ok <==> is_hex_id(s@),
            r matches Ok(o) ==> o.bytes@ == hex_decode(s@),
            r matches Err(e) ==> e == CosiError::MalformedId,
    {
        match parse_object_id(s) {
            Some(b) => Ok(OID { bytes: b }),
            None => Err(CosiError::MalformedId),
        }
    }

    /// The 24 lower-case hexadecimal digits of this id.
    pub fn to_hex(&self) -> (r: String)
        ensures
            r@ == hex_encode(self.bytes@),
    {
        object_id_hex(self.bytes)
    }
}

/// Reads every id of a list, failing on the first malformed one before any
/// lookup is made.
pub fn parse_oids(oids: &Vec<String>) -> (r: Result<Vec<OID>, CosiError>)
    ensures
        r is Ok <==> forall|i: int| 0 <= i < oids@.len() ==> is_hex_id(#[trigger] oids@[i]@),
        r matches Ok(v) ==> v@.len() == oids@.len() && forall|i: int|
            0 <= i < oids@.len() ==> (#[trigger] v@[i]).bytes@ == hex_decode(oids@[i]@),
        r matches Err(e) ==> e == CosiError::MalformedId,
{
    let mut out: Vec<OID> = Vec::new();
    let mut i: usize = 0;
    while i < oids.len()
        invariant
            i <= oids@.len(),
            out@.len() == i,
            forall|j: int| 0 <= j < i ==> is_hex_id(#[trigger] oids@[j]@),
            forall|j: int| 0 <= j < i ==> (#[trigger] out@[j]).bytes@ == hex_decode(oids@[j]@),
        decreases oids@.len() - i,
    {
        match OID::parse(oids[i].as_str()) {
            Ok(o) => out.push(o),
            Err(e) => return Err(e),
        }
        i += 1;
    }
    Ok(out)
}

} // verus!
