//! Record identifiers: random UUIDs in their canonical text form.

use vstd::prelude::*;

verus! {

/// Lower-case hexadecimal digit.
pub open spec fn is_hex(c: char) -> bool {
    ('0' <= c && c <= '9') || ('a' <= c && c <= 'f')
}

/// Positions of the four hyphens in the canonical 36-character form.
pub open spec fn is_hyphen_position(i: int) -> bool {
    i == 8 || i == 13 || i == 18 || i == 23
}

/// The canonical text of a random (version 4) UUID: 36 characters in groups
/// of 8-4-4-4-12 lower-case hexadecimal digits separated by hyphens, with the
/// version digit `4` and a variant digit among `8`, `9`, `a`, `b`.
pub open spec fn is_random_uuid(s: Seq<char>) -> bool {
    &&& s.len() == 36
    &&& forall|i: int|
        0 <= i < 36 ==> if is_hyphen_position(i) {
            #[trigger] s[i] == '-'
        } else {
            is_hex(s[i])
        }
    &&& s[14] == '4'
    &&& (s[19] == '8' || s[19] == '9' || s[19] == 'a' || s[19] == 'b')
}

/// Draws a fresh identifier with `uuid::Uuid::new_v4` and renders it with the
/// type's `Display`. Trusted: the text has the canonical shape of a random
/// UUID. Nothing is claimed about which identifier is drawn; two calls may
/// return anything of that shape. The draw panics where the operating system
/// has no random bytes to give.
#[verifier::external_body]
pub(crate) fn new_id() -> (id: String)
    ensures
        is_random_uuid(id@),
{
    uuid::Uuid::new_v4().to_string()
}

} // verus!
