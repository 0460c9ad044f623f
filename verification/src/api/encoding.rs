//! Base64 as the service expects it: the standard alphabet, padded.

use base64::Engine;
use vstd::prelude::*;
use vstd::utf8::{decode_utf8, encode_utf8, encode_utf8_decode_utf8};

verus! {

/// The base64 alphabet of RFC 4648: the character that stands for a value
/// in 0..=63.
pub open spec fn base64_char(value: int) -> char {
    "ABCDEFGHIJKLMNOPQRSTUVWXYZabcdefghijklmnopqrstuvwxyz0123456789+/"@[value]
}

/// The byte at a position, and zero past the end.
pub open spec fn byte_or_zero(bytes: Seq<u8>, i: int) -> int {
    if 0 <= i < bytes.len() {
        bytes[i] as int
    } else {
        0
    }
}

/// The `k`-th group of six bits of a byte string, read from the most
/// significant bit of the first byte and filled up with zero bits.
pub open spec fn sextet(bytes: Seq<u8>, k: int) -> int {
    let first = (k / 4) * 3;
    let b0 = byte_or_zero(bytes, first);
    let b1 = byte_or_zero(bytes, first + 1);
    let b2 = byte_or_zero(bytes, first + 2);
    if k % 4 == 0 {
        b0 / 4
    } else if k % 4 == 1 {
        (b0 % 4) * 16 + b1 / 16
    } else if k % 4 == 2 {
        (b1 % 16) * 4 + b2 / 64
    } else {
        b2 % 64
    }
}

/// The length of the base64 text of `n` bytes, padding included.
pub open spec fn base64_len(n: nat) -> nat {
    ((n + 2) / 3 * 4) as nat
}

/// The number of characters of that text that carry data.
pub open spec fn base64_data_len(n: nat) -> nat {
    ((n * 4 + 2) / 3) as nat
}

/// The base64 text of a byte string, in the standard alphabet and padded
/// with `=` to a multiple of four characters.
pub open spec fn base64_text(bytes: Seq<u8>) -> Seq<char> {
    Seq::new(
        base64_len(bytes.len()),
        |k: int|
            if k < base64_data_len(bytes.len()) {
                base64_char(sextet(bytes, k))
            } else {
                '='
            },
    )
}

/// Calls `encode` of the base64 crate's `STANDARD` engine, which writes its
/// input in the RFC 4648 alphabet, three bytes to four characters, and pads
/// the last group with `=`. The call panics when the length of the text does
/// not fit in `usize`, which the precondition leaves out.
#[verifier::external_body]
pub(crate) fn encode_standard(bytes: &[u8]) -> (text: String)
    requires
        base64_len(bytes@.len()) <= usize::MAX,
    ensures
        text@ == base64_text(bytes@),
{
    base64::engine::general_purpose::STANDARD.encode(bytes)
}

/// The value that a character of the base64 alphabet stands for.
pub open spec fn base64_value(c: char) -> int {
    let n = c as int;
    if 65 <= n <= 90 {
        n - 65
    } else if 97 <= n <= 122 {
        n - 97 + 26
    } else if 48 <= n <= 57 {
        n - 48 + 52
    } else if c == '+' {
        62
    } else {
        63
    }
}

/// The number of `=` that end a base64 text, two at most.
pub open spec fn base64_padding(text: Seq<char>) -> int {
    if text.len() >= 2 && text[text.len() - 1] == '=' && text[text.len() - 2] == '=' {
        2
    } else if text.len() >= 1 && text[text.len() - 1] == '=' {
        1
    } else {
        0
    }
}

/// The bytes that a padded base64 text stands for: three for every four
/// characters, less one for each `=` at the end.
pub open spec fn base64_bytes(text: Seq<char>) -> Seq<u8> {
    Seq::new(
        (text.len() / 4 * 3 - base64_padding(text)) as nat,
        |i: int|
            {
                let group = i / 3 * 4;
                let v0 = base64_value(text[group]);
                let v1 = base64_value(text[group + 1]);
                let v2 = base64_value(text[group + 2]);
                let v3 = base64_value(text[group + 3]);
                if i % 3 == 0 {
                    (v0 * 4 + v1 / 16) as u8
                } else if i % 3 == 1 {
                    ((v1 % 16) * 16 + v2 / 4) as u8
                } else {
                    ((v2 % 4) * 64 + v3) as u8
                }
            },
    )
}

/// Each value has its own character in the alphabet, and none is `=`.
pub proof fn lemma_base64_alphabet(value: int)
    requires
        0 <= value < 64,
    ensures
        base64_value(base64_char(value)) == value,
        base64_char(value) != '=',
{
    reveal_strlit("ABCDEFGHIJKLMNOPQRSTUVWXYZabcdefghijklmnopqrstuvwxyz0123456789+/");
}

/// Every group of six bits is a value of the alphabet.
pub proof fn lemma_sextet_range(bytes: Seq<u8>, k: int)
    requires
        0 <= k,
    ensures
        0 <= sextet(bytes, k) < 64,
{
}

/// Reading back the base64 text of a byte string gives that byte string.
pub proof fn lemma_base64_round_trip(bytes: Seq<u8>)
    ensures
        base64_bytes(base64_text(bytes)) == bytes,
{
    let n = bytes.len() as int;
    let text = base64_text(bytes);
    let total = base64_len(bytes.len()) as int;
    let data = base64_data_len(bytes.len()) as int;
    assert(text.len() == total);
    assert forall|k: int| 0 <= k < data implies #[trigger] text[k] != '=' && base64_value(text[k])
        == sextet(bytes, k) by {
        lemma_sextet_range(bytes, k);
        lemma_base64_alphabet(sextet(bytes, k));
    }
    assert forall|k: int| data <= k < total implies #[trigger] text[k] == '=' by {}
    assert(base64_padding(text) == total - data) by {
        if n % 3 == 0 {
            assert(total == data);
            if total > 0 {
                assert(text[total - 1] != '=');
            }
        } else if n % 3 == 1 {
            assert(total - data == 2);
            assert(text[total - 1] == '=');
            assert(text[total - 2] == '=');
        } else {
            assert(total - data == 1);
            assert(text[total - 1] == '=');
            assert(text[total - 2] != '=');
        }
    }
    let back = base64_bytes(text);
    assert(back.len() == n);
    assert forall|i: int| 0 <= i < n implies back[i] == bytes[i] by {
        let group = i / 3 * 4;
        let first = i / 3 * 3;
        assert(group / 4 == i / 3);
        assert(text[group] != '=' && base64_value(text[group]) == sextet(bytes, group));
        assert(text[group + 1] != '=' && base64_value(text[group + 1]) == sextet(
            bytes,
            group + 1,
        ));
        assert((group + 1) / 4 == i / 3 && (group + 1) % 4 == 1);
        assert(group % 4 == 0);
        let b0 = byte_or_zero(bytes, first);
        let b1 = byte_or_zero(bytes, first + 1);
        let b2 = byte_or_zero(bytes, first + 2);
        if i % 3 == 0 {
            assert(bytes[i] as int == b0);
        } else {
            assert(text[group + 2] != '=' && base64_value(text[group + 2]) == sextet(
                bytes,
                group + 2,
            ));
            assert((group + 2) / 4 == i / 3 && (group + 2) % 4 == 2);
            if i % 3 == 1 {
                assert(bytes[i] as int == b1);
            } else {
                assert(text[group + 3] != '=' && base64_value(text[group + 3]) == sextet(
                    bytes,
                    group + 3,
                ));
                assert((group + 3) / 4 == i / 3 && (group + 3) % 4 == 3);
                assert(bytes[i] as int == b2);
            }
        }
    }
    assert(back =~= bytes);
}

/// A text that is sent as base64 can be read back exactly: the base64 text
/// stands for the UTF-8 bytes of the text, and those bytes for the text.
pub proof fn lemma_text_survives_base64(text: Seq<char>)
    ensures
        base64_bytes(base64_text(encode_utf8(text))) == encode_utf8(text),
        decode_utf8(base64_bytes(base64_text(encode_utf8(text)))) == text,
{
    lemma_base64_round_trip(encode_utf8(text));
    encode_utf8_decode_utf8(text);
}

} // verus!
