//! Base64 in the URL-safe alphabet, without padding.

use base64::engine::general_purpose::URL_SAFE_NO_PAD;
use base64::Engine;
use vstd::prelude::*;

verus! {

/// The symbol of a six-bit value.
pub open spec fn symbol(v: int) -> char {
    if v < 26 {
        (65 + v) as char
    } else if v < 52 {
        (97 + (v - 26)) as char
    } else if v < 62 {
        (48 + (v - 52)) as char
    } else if v == 62 {
        '-'
    } else {
        '_'
    }
}

/// Three bytes give four symbols; one or two bytes at the end give two or three.
pub open spec fn encoded(bytes: Seq<u8>) -> Seq<char>
    decreases bytes.len(),
{
    let a = bytes[0] as int;
    let b = bytes[1] as int;
    let c = bytes[2] as int;
    if bytes.len() == 0 {
        Seq::empty()
    } else if bytes.len() == 1 {
        seq![symbol(a / 4), symbol(a % 4 * 16)]
    } else if bytes.len() == 2 {
        seq![symbol(a / 4), symbol(a % 4 * 16 + b / 16), symbol(b % 16 * 4)]
    } else {
        seq![
            symbol(a / 4),
            symbol(a % 4 * 16 + b / 16),
            symbol(b % 16 * 4 + c / 64),
            symbol(c % 64),
        ] + encoded(bytes.skip(3))
    }
}

/// What the decoder says of a text that encodes nothing.
pub uninterp spec fn decode_error_text(text: Seq<char>) -> Seq<char>;

/// The bytes that `text` encodes, or the decoder's complaint where it encodes
/// none.
pub open spec fn decoded(text: Seq<char>) -> Result<Seq<u8>, Seq<char>> {
    if exists|bytes: Seq<u8>| #[trigger] encoded(bytes) == text {
        Ok(choose|bytes: Seq<u8>| #[trigger] encoded(bytes) == text)
    } else {
        Err(decode_error_text(text))
    }
}

/// `Engine::decode` of the `base64` crate, on its `URL_SAFE_NO_PAD` engine.
/// That engine takes neither padding nor set bits beyond the last byte, so it
/// accepts a text exactly where some bytes encode to it, and returns those
/// bytes. The text of its error is left as a name.
#[verifier::external_body]
fn engine_decode(text: &str) -> (r: Result<Vec<u8>, String>)
    ensures
        match r {
            Ok(bytes) => encoded(bytes@) == text@,
            Err(complaint) => {
                &&& forall|bytes: Seq<u8>| #[trigger] encoded(bytes) != text@
                &&& complaint@ == decode_error_text(text@)
            },
        },
{
    URL_SAFE_NO_PAD.decode(text).map_err(|e| e.to_string())
}

/// `Engine::encode` of the `base64` crate, on its `URL_SAFE_NO_PAD` engine. The
/// bound keeps the size of the result within what the engine can allocate.
#[verifier::external_body]
fn engine_encode(bytes: &[u8]) -> (text: String)
    requires
        bytes@.len() <= 0x4000_0000,
    ensures
        text@ == encoded(bytes@),
{
    URL_SAFE_NO_PAD.encode(bytes)
}

/// Decode `text`.
pub fn decode(text: &str) -> (r: Result<Vec<u8>, String>)
    ensures
        match r {
            Ok(bytes) => decoded(text@) == Ok::<Seq<u8>, Seq<char>>(bytes@),
            Err(complaint) => decoded(text@) == Err::<Seq<u8>, Seq<char>>(complaint@),
        },
{
    let r = engine_decode(text);
    proof {
        if r is Ok {
            let other = choose|b: Seq<u8>| #[trigger] encoded(b) == text@;
            encoding_is_injective(r->Ok_0@, other);
        }
    }
    r
}

/// Encode `bytes`.
pub fn encode(bytes: &[u8]) -> (text: String)
    requires
        bytes@.len() <= 0x4000_0000,
    ensures
        text@ == encoded(bytes@),
{
    engine_encode(bytes)
}

proof fn lemma_symbol_injective(v: int, w: int)
    requires
        0 <= v < 64,
        0 <= w < 64,
        symbol(v) == symbol(w),
    ensures
        v == w,
{
    assert(symbol(v) as int == if v < 26 { 65 + v } else if v < 52 { 71 + v } else if v < 62 {
        v - 4
    } else if v == 62 { 45 } else { 95 });
    assert(symbol(w) as int == if w < 26 { 65 + w } else if w < 52 { 71 + w } else if w < 62 {
        w - 4
    } else if w == 62 { 45 } else { 95 });
}

/// Different bytes have different encodings.
pub proof fn encoding_is_injective(x: Seq<u8>, y: Seq<u8>)
    requires
        encoded(x) == encoded(y),
    ensures
        x == y,
    decreases x.len(),
{
    encoding_length(x);
    encoding_length(y);
    let s = encoded(x);
    assert(x.len() == y.len());
    if x.len() > 0 {
        let (a, b, c) = (x[0] as int, x[1] as int, x[2] as int);
        let (d, e, f) = (y[0] as int, y[1] as int, y[2] as int);
        assert(s[0] == symbol(a / 4) && s[0] == symbol(d / 4));
        lemma_symbol_injective(a / 4, d / 4);
        if x.len() == 1 {
            assert(s[1] == symbol(a % 4 * 16) && s[1] == symbol(d % 4 * 16));
            lemma_symbol_injective(a % 4 * 16, d % 4 * 16);
        } else {
            assert(s[1] == symbol(a % 4 * 16 + b / 16) && s[1] == symbol(d % 4 * 16 + e / 16));
            lemma_symbol_injective(a % 4 * 16 + b / 16, d % 4 * 16 + e / 16);
            if x.len() == 2 {
                assert(s[2] == symbol(b % 16 * 4) && s[2] == symbol(e % 16 * 4));
                lemma_symbol_injective(b % 16 * 4, e % 16 * 4);
            } else {
                assert(s[2] == symbol(b % 16 * 4 + c / 64) && s[2] == symbol(e % 16 * 4 + f / 64));
                assert(s[3] == symbol(c % 64) && s[3] == symbol(f % 64));
                lemma_symbol_injective(b % 16 * 4 + c / 64, e % 16 * 4 + f / 64);
                lemma_symbol_injective(c % 64, f % 64);
                assert(encoded(x.skip(3)) =~= s.skip(4));
                assert(encoded(y.skip(3)) =~= s.skip(4));
                encoding_is_injective(x.skip(3), y.skip(3));
                assert forall|i: int| 0 <= i < x.len() implies x[i] == y[i] by {
                    if i >= 3 {
                        assert(x[i] == x.skip(3)[i - 3]);
                        assert(y[i] == y.skip(3)[i - 3]);
                    }
                }
            }
        }
    }
    assert(x =~= y);
}

/// The encoding of `n` bytes holds four symbols for each three bytes, and two
/// or three for what is left.
pub proof fn encoding_length(bytes: Seq<u8>)
    ensures
        encoded(bytes).len() == bytes.len() / 3 * 4 + (if bytes.len() % 3 == 0 {
            0nat
        } else {
            bytes.len() % 3 + 1
        }),
    decreases bytes.len(),
{
    if bytes.len() >= 3 {
        encoding_length(bytes.skip(3));
    }
}

/// What is encoded decodes to the same bytes.
pub proof fn encoding_decodes_back(bytes: Seq<u8>)
    ensures
        decoded(encoded(bytes)) == Ok::<Seq<u8>, Seq<char>>(bytes),
{
    let other = choose|b: Seq<u8>| #[trigger] encoded(b) == encoded(bytes);
    encoding_is_injective(bytes, other);
}

/// A character of the alphabet: a letter, a digit, `-` or `_`.
pub open spec fn in_alphabet(c: char) -> bool {
    ||| 'A' <= c && c <= 'Z'
    ||| 'a' <= c && c <= 'z'
    ||| '0' <= c && c <= '9'
    ||| c == '-'
    ||| c == '_'
}

/// An encoding holds characters of the alphabet alone: no padding, no `+`, no
/// `/` and no `.`.
pub proof fn encoding_stays_in_alphabet(bytes: Seq<u8>)
    ensures
        forall|i: int| 0 <= i < encoded(bytes).len() ==> in_alphabet(#[trigger] encoded(bytes)[i]),
    decreases bytes.len(),
{
    if bytes.len() >= 3 {
        encoding_stays_in_alphabet(bytes.skip(3));
        let rest = encoded(bytes.skip(3));
        assert forall|i: int| 0 <= i < encoded(bytes).len() implies in_alphabet(
            #[trigger] encoded(bytes)[i],
        ) by {
            if i >= 4 {
                assert(encoded(bytes)[i] == rest[i - 4]);
            }
        }
    }
}

} // verus!
