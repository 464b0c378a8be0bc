//! Base64 packaging of the encoded thumbnail bytes. The encoding itself
//! is done by an outside crate; its result is named here, together with
//! the facts its documentation gives (alphabet, padding, length), so that
//! callers can state exactly what their output strings contain.

use vstd::prelude::*;

verus! {

/// The base64 encoding (standard alphabet, with padding) of a byte
/// sequence. The encoding is a pure function of the bytes; its value is
/// not spelled out here, only named.
pub uninterp spec fn base64_of(bytes: Seq<u8>) -> Seq<char>;

/// Whether `c` can appear in a padded standard-alphabet base64 encoding:
/// a letter, a digit, `+`, `/`, or the padding character `=`.
pub open spec fn base64_char(c: char) -> bool {
    ||| 'A' <= c && c <= 'Z'
    ||| 'a' <= c && c <= 'z'
    ||| '0' <= c && c <= '9'
    ||| c == '+'
    ||| c == '/'
    ||| c == '='
}

/// Relies on `base64::encode`: encodes the bytes with the standard
/// alphabet and padding; the result depends on the bytes alone, is four
/// characters for every started group of three bytes, and holds only
/// alphabet and padding characters.
#[verifier::external_body]
pub fn base64_encode(bytes: &[u8]) -> (r: String)
    ensures
        r@ == base64_of(bytes@),
        r@.len() == 4 * ((bytes@.len() + 2) / 3),
        forall|i: int| 0 <= i < r@.len() ==> base64_char(r@[i]),
{
    base64::encode(bytes)
}

} // verus!
