//! Base64, as the `base64` crate writes and reads it.

use vstd::prelude::*;

verus! {

/// The decode error of the `base64` crate.
#[verifier::external_type_specification]
#[verifier::external_body]
pub struct ExDecodeError(base64::DecodeError);

/// The text that `base64::encode` makes of `bytes`: standard alphabet,
/// padded.
pub uninterp spec fn base64_text(bytes: Seq<u8>) -> Seq<u8>;

/// The bytes that `base64::decode` reads from `text`; `None` where it
/// refuses the text.
pub uninterp spec fn base64_bytes(text: Seq<u8>) -> Option<Seq<u8>>;

/// Whether `b` is a letter, a digit, `+`, `/` or `=`.
pub open spec fn is_base64_symbol(b: u8) -> bool {
    ||| (0x41 <= b <= 0x5a)
    ||| (0x61 <= b <= 0x7a)
    ||| (0x30 <= b <= 0x39)
    ||| b == 0x2b
    ||| b == 0x2f
    ||| b == 0x3d
}

/// How long the text of `n` bytes is: four symbols for every three bytes
/// begun.
pub open spec fn encoded_len(n: nat) -> nat {
    (n + 2) / 3 * 4
}

/// The longest text that is written or read. The `base64` crate sizes its
/// buffers by the text, up to seven bytes above its length, and no buffer
/// holds more than `isize::MAX` bytes.
pub open spec fn spec_text_limit() -> usize {
    (usize::MAX / 2 - 8) as usize
}

/// The longest text that is written or read.
#[verifier::when_used_as_spec(spec_text_limit)]
pub fn text_limit() -> (limit: usize)
    ensures
        limit == spec_text_limit(),
{
    usize::MAX / 2 - 8
}

/// Whether the text of `n` bytes is within `text_limit`.
pub fn is_encodable(n: usize) -> (b: bool)
    ensures
        b == (encoded_len(n as nat) <= spec_text_limit()),
{
    let groups = n / 3 + if n % 3 > 0 {
        1
    } else {
        0
    };
    assert(groups == (n + 2) / 3);
    groups <= text_limit() / 4
}

/// Calls `base64::encode`. Trusted: the text is a function of the bytes,
/// named `base64_text`; it holds four symbols for every three bytes begun,
/// each of the standard alphabet or the padding sign; and `base64::decode`
/// reads the bytes back from it. The crate panics where the text's length
/// overflows, and so does the buffer it allocates for a text of more than
/// `isize::MAX` bytes.
#[verifier::external_body]
pub(crate) fn encode(bytes: &[u8]) -> (text: Vec<u8>)
    requires
        encoded_len(bytes@.len()) <= spec_text_limit(),
    ensures
        text@ == base64_text(bytes@),
        text@.len() == encoded_len(bytes@.len()),
        forall|i: int| 0 <= i < text@.len() ==> is_base64_symbol(#[trigger] text@[i]),
        base64_bytes(text@) == Some(bytes@),
{
    base64::encode(bytes).into_bytes()
}

/// Calls `base64::decode`. Trusted: what is read is a function of the text,
/// named `base64_bytes`. The crate panics where the text's length plus
/// seven overflows, and so do the buffers it allocates for a text of more
/// than `isize::MAX` bytes.
#[verifier::external_body]
pub(crate) fn decode(text: &[u8]) -> (r: Result<Vec<u8>, base64::DecodeError>)
    requires
        text@.len() <= spec_text_limit(),
    ensures
        r matches Ok(bytes) ==> base64_bytes(text@) == Some(bytes@),
        r is Err ==> base64_bytes(text@) is None,
{
    base64::decode(text)
}

} // verus!
