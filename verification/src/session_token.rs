//! Session tokens.

use rand::rngs::OsRng;
use rand::RngCore;
use vstd::prelude::*;

verus! {

/// How many random bytes a session token is made of.
pub const TOKEN_BYTES: usize = 32;

/// A hexadecimal digit in lower case.
pub open spec fn lower_hex(d: int) -> char {
    if d < 10 {
        (48 + d) as char
    } else {
        (87 + d) as char
    }
}

/// Bytes in hexadecimal, two digits each.
pub open spec fn hex_text(bytes: Seq<u8>) -> Seq<char> {
    Seq::new(
        2 * bytes.len(),
        |i: int|
            if i % 2 == 0 {
                lower_hex(bytes[i / 2] as int / 16)
            } else {
                lower_hex(bytes[i / 2] as int % 16)
            },
    )
}

/// `hex::encode` of the `hex` crate: two lower-case digits for each byte. The
/// bound keeps the size of the result within what can be allocated.
#[verifier::external_body]
fn hex_encode(bytes: &[u8]) -> (r: String)
    requires
        bytes@.len() <= 0x2000_0000,
    ensures
        r@ == hex_text(bytes@),
{
    hex::encode(bytes)
}

/// `OsRng::try_fill_bytes` of the `rand` crate: `n` random bytes, or nothing where
/// the system has none to give. Which bytes they are rests on chance. The bound
/// keeps their number within what can be allocated.
#[verifier::external_body]
fn random_bytes(n: usize) -> (r: Option<Vec<u8>>)
    requires
        n <= 0x4000_0000,
    ensures
        r matches Some(bytes) ==> bytes@.len() == n,
{
    let mut bytes = vec![0u8; n];
    OsRng.try_fill_bytes(&mut bytes).ok().map(|_| bytes)
}

/// A session token: what the client holds, and the beginning of it by which it
/// may be told apart in a list.
pub struct SessionToken {
    pub plaintext: String,
    pub prefix: String,
}

/// [`SessionToken`] as contracts speak of it.
pub struct TokenModel {
    pub plaintext: Seq<char>,
    pub prefix: Seq<char>,
}

impl View for SessionToken {
    type V = TokenModel;

    open spec fn view(&self) -> TokenModel {
        TokenModel { plaintext: self.plaintext@, prefix: self.prefix@ }
    }
}

/// The session token that is made of `bytes`.
pub open spec fn token_of(bytes: Seq<u8>) -> TokenModel {
    TokenModel { plaintext: hex_text(bytes), prefix: hex_text(bytes).take(8) }
}

/// Make a session token of random bytes.
pub fn mint_session_token(bytes: &[u8]) -> (r: SessionToken)
    requires
        bytes@.len() == TOKEN_BYTES,
    ensures
        r@ == token_of(bytes@),
{
    let plaintext: String = hex_encode(bytes);
    let prefix: String = plaintext.as_str().substring_char(0, 8).to_owned();
    assert(prefix@ =~= plaintext@.take(8));
    SessionToken { plaintext, prefix }
}

/// `drawn` is what the system gave when it was asked for the bytes of a token.
pub closed spec fn system_draws(drawn: Option<Vec<u8>>) -> bool {
    call_ensures(random_bytes, (TOKEN_BYTES,), drawn)
}

/// A draw is what a call for as many random bytes as a token has returned, and
/// nothing else.
proof fn lemma_draws_are_the_systems(drawn: Option<Vec<u8>>)
    ensures
        system_draws(drawn) == call_ensures(random_bytes, (TOKEN_BYTES,), drawn),
{
}

/// Make a new session token, unless the system has no random bytes to give. It is
/// the token of one draw, all of whose bytes are in it.
pub fn new_session_token() -> (r: Option<SessionToken>)
    ensures
        exists|drawn: Option<Seq<u8>>|
            (drawn matches Some(bytes) ==> bytes.len() == TOKEN_BYTES) && token_view(r)
                == #[trigger] drawn_token(drawn),
        exists|drawn: Option<Vec<u8>>| #[trigger]
            system_draws(drawn) && token_view(r) == drawn_token(drawn_view(drawn)),
{
    let system = random_bytes;
    let drawn: Option<Vec<u8>> = system(TOKEN_BYTES);
    proof {
        lemma_draws_are_the_systems(drawn);
    }
    let ghost bytes = drawn_view(drawn);
    let r: Option<SessionToken> = session_token_from(drawn);
    assert(token_view(r) == drawn_token(bytes));
    r
}

/// What was drawn, as contracts speak of it.
pub open spec fn drawn_view(drawn: Option<Vec<u8>>) -> Option<Seq<u8>> {
    match drawn {
        Some(bytes) => Some(bytes@),
        None => None,
    }
}

/// A session token that may not be there, as contracts speak of it.
pub open spec fn token_view(token: Option<SessionToken>) -> Option<TokenModel> {
    match token {
        Some(token) => Some(token@),
        None => None,
    }
}

/// The session token that comes of what was drawn: one where bytes were drawn,
/// and none where there were none.
pub open spec fn drawn_token(drawn: Option<Seq<u8>>) -> Option<TokenModel> {
    match drawn {
        Some(bytes) => Some(token_of(bytes)),
        None => None,
    }
}

/// Make a session token of what was drawn.
pub fn session_token_from(drawn: Option<Vec<u8>>) -> (r: Option<SessionToken>)
    requires
        drawn matches Some(bytes) ==> bytes@.len() == TOKEN_BYTES,
    ensures
        token_view(r) == drawn_token(drawn_view(drawn)),
{
    match drawn {
        Some(bytes) => Some(mint_session_token(bytes.as_slice())),
        None => None,
    }
}

proof fn lemma_lower_hex(d: int)
    requires
        0 <= d < 16,
    ensures
        lower_hex(d) as int == if d < 10 {
            48 + d
        } else {
            87 + d
        },
{
}

/// Different random bytes make different tokens.
pub proof fn tokens_are_as_distinct_as_their_bytes(a: Seq<u8>, b: Seq<u8>)
    requires
        a.len() == TOKEN_BYTES,
        b.len() == TOKEN_BYTES,
        token_of(a).plaintext == token_of(b).plaintext,
    ensures
        a == b,
{
    assert forall|i: int| 0 <= i < a.len() implies a[i] == b[i] by {
        let (s, t) = (hex_text(a), hex_text(b));
        assert(s[2 * i] == lower_hex(a[i] as int / 16));
        assert(t[2 * i] == lower_hex(b[i] as int / 16));
        assert(s[2 * i + 1] == lower_hex(a[i] as int % 16));
        assert(t[2 * i + 1] == lower_hex(b[i] as int % 16));
        lemma_lower_hex(a[i] as int / 16);
        lemma_lower_hex(b[i] as int / 16);
        lemma_lower_hex(a[i] as int % 16);
        lemma_lower_hex(b[i] as int % 16);
    }
    assert(a =~= b);
}

/// A token has two characters for each byte, all of them lower-case hexadecimal
/// digits, and the prefix is its first eight.
pub proof fn tokens_are_hexadecimal(bytes: Seq<u8>, i: int)
    requires
        bytes.len() == TOKEN_BYTES,
        0 <= i < 2 * TOKEN_BYTES,
    ensures
        token_of(bytes).plaintext.len() == 2 * TOKEN_BYTES,
        token_of(bytes).prefix.len() == 8,
        token_of(bytes).prefix.is_prefix_of(token_of(bytes).plaintext),
        ({
            let c = token_of(bytes).plaintext[i];
            '0' <= c && c <= '9' || 'a' <= c && c <= 'f'
        }),
{
    lemma_lower_hex(bytes[i / 2] as int / 16);
    lemma_lower_hex(bytes[i / 2] as int % 16);
}

/// A token is made of 32 bytes and so has 64 characters, of which the prefix is
/// the first eight. Each byte gives two of them: its upper half and its lower
/// half.
pub proof fn tokens_have_sixty_four_characters(bytes: Seq<u8>, i: int)
    requires
        bytes.len() == TOKEN_BYTES,
        0 <= i < bytes.len(),
    ensures
        TOKEN_BYTES == 32,
        token_of(bytes).plaintext.len() == 64,
        token_of(bytes).prefix == token_of(bytes).plaintext.take(8),
        token_of(bytes).plaintext[2 * i] == "0123456789abcdef"@[bytes[i] as int / 16],
        token_of(bytes).plaintext[2 * i + 1] == "0123456789abcdef"@[bytes[i] as int % 16],
{
    reveal_strlit("0123456789abcdef");
}

/// What was drawn decides: bytes always make a token, and without bytes there is
/// none.
pub proof fn draws_decide_on_tokens(bytes: Seq<u8>)
    ensures
        drawn_token(Some(bytes)) == Some(token_of(bytes)),
        drawn_token(None) is None,
{
}

} // verus!
