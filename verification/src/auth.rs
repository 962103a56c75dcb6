//! The check of the `Authorization` header against the one credential
//! that the service knows.

use vstd::prelude::*;
use vstd::string::{StringExecFns, StringSliceAdditionalSpecFns};
use vstd::utf8::encode_utf8;

verus! {

/// The Base64 text of a sequence of bytes, in the standard alphabet and
/// with padding.
pub uninterp spec fn base64_text(bytes: Seq<u8>) -> Seq<char>;

/// `needle` stands somewhere in `hay`, character for character.
pub open spec fn occurs_in(needle: Seq<char>, hay: Seq<char>) -> bool {
    exists|i: int|
        0 <= i <= hay.len() - needle.len() && #[trigger] hay.subrange(i, i + needle.len())
            == needle
}

/// The text that a header must hold to be let through: the Base64 text of
/// user, colon and password.
pub open spec fn credential_token(user: Seq<char>, password: Seq<char>) -> Seq<char> {
    base64_text(encode_utf8(user + ":"@ + password))
}

/// The length in bytes of a text in UTF-8, as `str::len` gives it.
pub open spec fn byte_len(text: Seq<char>) -> usize {
    encode_utf8(text).len() as usize
}

/// The encoded text of an input of `len` bytes can be allocated.
pub open spec fn encodable(len: usize) -> bool {
    (len / 3) * 4 + 4 <= usize::MAX
}

/// `base64::encode` on the bytes of `input`: their Base64 text in the
/// standard alphabet, padded. The call panics where the length of the
/// text does not fit `usize`; such inputs are left out.
#[verifier::external_body]
fn base64_encode(input: &str) -> (t: String)
    requires
        encodable(byte_len(input@)),
    ensures
        t@ == base64_text(input.spec_bytes()),
{
    base64::encode(input)
}

/// `str::contains` with a string pattern: whether the pattern matches a
/// part of the string.
#[verifier::external_body]
fn has_part(hay: &str, needle: &str) -> (found: bool)
    ensures
        found == occurs_in(needle@, hay@),
{
    hay.contains(needle)
}

/// Whether an `Authorization` header carries the credential: it does if
/// the Base64 text of `user:password` stands anywhere in it. A credential
/// too long to encode lets nothing through.
pub fn basic_auth(header: &str, user: &str, password: &str) -> (granted: bool)
    ensures
        granted == (encodable(byte_len(user@ + ":"@ + password@)) && occurs_in(
            credential_token(user@, password@),
            header@,
        )),
{
    let mut credential: String = String::from_str(user);
    credential.append(":");
    credential.append(password);
    let plain: &str = credential.as_str();
    let len: usize = plain.len();
    assert(plain@ == user@ + ":"@ + password@);
    assert(len == byte_len(user@ + ":"@ + password@));
    let groups: usize = len / 3;
    let most: usize = (usize::MAX - 4) / 4;
    assert(encodable(len) <==> groups <= most);
    if groups > most {
        return false;
    }
    let token: String = base64_encode(plain);
    has_part(header, token.as_str())
}

} // verus!
