//! Account identifiers: opaque unique ids rendered as 24 hexadecimal
//! characters, the textual form of a 12-byte object id.

use vstd::prelude::*;

verus! {

/// Whether `c` is a hexadecimal digit, either case.
pub open spec fn spec_is_hex_digit(c: char) -> bool {
    (48 <= c as u32 && c as u32 <= 57)  // '0' ..= '9'
     || (97 <= c as u32 && c as u32 <= 102)  // 'a' ..= 'f'
     || (65 <= c as u32 && c as u32 <= 70)  // 'A' ..= 'F'

}

/// A well-formed id: exactly 24 hexadecimal characters.
pub open spec fn spec_is_object_id_hex(s: Seq<char>) -> bool {
    s.len() == 24 && forall|i: int| 0 <= i < s.len() ==> spec_is_hex_digit(s[i])
}

/// Whether `s` is exactly 24 hexadecimal characters.
pub fn is_object_id_hex(s: &str) -> (r: bool)
    ensures
        r == spec_is_object_id_hex(s@),
{
    let len = s.unicode_len();
    if len != 24 {
        return false;
    }
    let mut i: usize = 0;
    while i < len
        invariant
            0 <= i <= len,
            len == s@.len(),
            len == 24,
            forall|j: int| 0 <= j < i ==> spec_is_hex_digit(s@[j]),
        decreases len - i,
    {
        let n = s.get_char(i) as u32;
        if !((48 <= n && n <= 57) || (97 <= n && n <= 102) || (65 <= n && n <= 70)) {
            return false;
        }
        i += 1;
    }
    true
}

/// Relies on bson::oid::ObjectId::new and ObjectId::to_hex: a freshly
/// generated 12-byte id rendered as its 24 hexadecimal characters.
#[verifier::external_body]
pub(crate) fn new_object_id_hex() -> (r: String)
    ensures
        spec_is_object_id_hex(r@),
{
    bson::oid::ObjectId::new().to_hex()
}

} // verus!
