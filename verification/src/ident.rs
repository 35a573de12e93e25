//! Fresh identifiers for new definitions.

use crate::text::is_digit;
use vstd::prelude::*;

verus! {

/// Whether `c` is a digit or one of the letters `a` to `f`.
pub open spec fn is_lower_hex(c: char) -> bool {
    is_digit(c) || 0x61 <= c as u32 <= 0x66
}

/// Whether `s` has the hyphenated form of a random UUID: 36 characters in
/// groups of 8, 4, 4, 4 and 12 lower-case hexadecimal digits with a hyphen
/// between them, the third group starting with `4` and the fourth with one
/// of `8`, `9`, `a`, `b`.
pub open spec fn is_generated_id(s: Seq<char>) -> bool {
    &&& s.len() == 36
    &&& forall|i: int|
        0 <= i < 36 ==> if i == 8 || i == 13 || i == 18 || i == 23 {
            #[trigger] s[i] == '-'
        } else {
            is_lower_hex(s[i])
        }
    &&& s[14] == '4'
    &&& (s[19] == '8' || s[19] == '9' || s[19] == 'a' || s[19] == 'b')
}

/// Draws a random identifier: `uuid::Uuid::new_v4()` written out with
/// `to_string()`.
///
/// Trusted, not proved: the text has the hyphenated lower-case form with the
/// version and variant digits of a random UUID. Nothing is claimed of which
/// identifier comes out, so two calls may return the same one. The call
/// panics where the operating system has no random bytes to give.
#[verifier::external_body]
pub(crate) fn fresh_id() -> (id: String)
    ensures
        is_generated_id(id@),
{
    uuid::Uuid::new_v4().to_string()
}

} // verus!
