//! Byte-to-text encodings used by the preview: standard Base64 and lossy
//! UTF-8 decoding. Both are done by outside code; the contracts below are
//! what the library relies on.

use vstd::prelude::*;
use vstd::utf8::*;

verus! {

/// The character of the RFC 4648 standard alphabet for the six-bit value `v`.
pub open spec fn base64_digit(v: int) -> char {
    if v < 26 {
        (('A' as int) + v) as char
    } else if v < 52 {
        (('a' as int) + (v - 26)) as char
    } else if v < 62 {
        (('0' as int) + (v - 52)) as char
    } else if v == 62 {
        '+'
    } else {
        '/'
    }
}

/// Standard Base64 (RFC 4648, section 4) of `bytes`, with `=` padding: each
/// group of three bytes becomes four digits of six bits each, most
/// significant first; a last group of one or two bytes is padded with zero
/// bits and then with `=` to four characters.
pub open spec fn base64_standard(bytes: Seq<u8>) -> Seq<char>
    decreases bytes.len(),
{
    if bytes.len() == 0 {
        Seq::empty()
    } else if bytes.len() == 1 {
        let b0 = bytes[0] as int;
        seq![base64_digit(b0 / 4), base64_digit((b0 % 4) * 16), '=', '=']
    } else if bytes.len() == 2 {
        let b0 = bytes[0] as int;
        let b1 = bytes[1] as int;
        seq![
            base64_digit(b0 / 4),
            base64_digit((b0 % 4) * 16 + b1 / 16),
            base64_digit((b1 % 16) * 4),
            '=',
        ]
    } else {
        let b0 = bytes[0] as int;
        let b1 = bytes[1] as int;
        let b2 = bytes[2] as int;
        seq![
            base64_digit(b0 / 4),
            base64_digit((b0 % 4) * 16 + b1 / 16),
            base64_digit((b1 % 16) * 4 + b2 / 64),
            base64_digit(b2 % 64),
        ] + base64_standard(bytes.skip(3))
    }
}

/// The text that `String::from_utf8_lossy` produces for `bytes`.
pub uninterp spec fn utf8_lossy(bytes: Seq<u8>) -> Seq<char>;

/// A character of the RFC 4648 standard alphabet, or the padding `=`.
pub open spec fn is_base64_standard_char(c: char) -> bool {
    ||| ('A' <= c && c <= 'Z')
    ||| ('a' <= c && c <= 'z')
    ||| ('0' <= c && c <= '9')
    ||| c == '+'
    ||| c == '/'
    ||| c == '='
}

/// Length of the padded Base64 text of `n` bytes: four characters for every
/// started group of three bytes.
pub open spec fn base64_padded_len(n: nat) -> nat {
    ((n + 2) / 3 * 4) as nat
}

/// Standard Base64 text has four characters for every started group of three
/// bytes, all from the standard alphabet or `=`.
pub proof fn lemma_base64_shape(bytes: Seq<u8>)
    ensures
        base64_standard(bytes).len() == base64_padded_len(bytes.len()),
        forall|i: int|
            0 <= i < base64_standard(bytes).len() ==> is_base64_standard_char(
                #[trigger] base64_standard(bytes)[i],
            ),
    decreases bytes.len(),
{
    assert forall|v: int| 0 <= v < 64 implies is_base64_standard_char(#[trigger] base64_digit(v)) by {
    }
    if bytes.len() > 3 {
        lemma_base64_shape(bytes.skip(3));
        let head = base64_standard(bytes).subrange(0, 4);
        let rest = base64_standard(bytes.skip(3));
        assert(base64_standard(bytes) =~= head + rest);
        assert forall|i: int|
            0 <= i < base64_standard(bytes).len() implies is_base64_standard_char(
                #[trigger] base64_standard(bytes)[i],
            ) by {
            if i >= 4 {
                assert(base64_standard(bytes)[i] == rest[i - 4]);
            }
        }
    } else if bytes.len() == 3 {
        assert(bytes.skip(3).len() == 0);
        assert(base64_standard(bytes.skip(3)) =~= Seq::<char>::empty());
    }
}

/// Calls `base64::engine::general_purpose::STANDARD.encode(bytes)`.
///
/// Trusted: the result is the standard, padded Base64 text of `bytes`, as
/// RFC 4648 defines it and the crate documents for `STANDARD`. The crate
/// panics when the encoded length overflows `usize`, which the precondition
/// rules out.
#[verifier::external_body]
pub(crate) fn encode_base64_standard(bytes: &[u8]) -> (s: String)
    requires
        base64_padded_len(bytes@.len()) <= usize::MAX,
    ensures
        s@ == base64_standard(bytes@),
{
    base64::Engine::encode(&base64::engine::general_purpose::STANDARD, bytes)
}

/// Calls `String::from_utf8_lossy(bytes)` and takes the owned string.
///
/// Trusted: the result is the named lossy decoding of `bytes`, and for valid
/// UTF-8 it is exactly the decoded text (std documents that valid input is
/// returned unchanged). What replaces invalid sequences (U+FFFD) is not
/// stated here.
#[verifier::external_body]
pub(crate) fn decode_utf8_lossy(bytes: &[u8]) -> (s: String)
    ensures
        s@ == utf8_lossy(bytes@),
        valid_utf8(bytes@) ==> s@ == decode_utf8(bytes@),
{
    String::from_utf8_lossy(bytes).into_owned()
}

} // verus!
