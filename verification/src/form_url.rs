//! URLs with form-encoded queries.

use crate::text;
use crate::text::starts_with;
use url::Url;
use vstd::prelude::*;

verus! {

/// A hexadecimal digit in upper case.
pub open spec fn upper_hex(d: int) -> char {
    if d < 10 {
        (48 + d) as char
    } else {
        (55 + d) as char
    }
}

/// A byte that stands for itself in a form-encoded query.
pub open spec fn plain_byte(b: u8) -> bool {
    ||| 48 <= b <= 57
    ||| 65 <= b <= 90
    ||| 97 <= b <= 122
    ||| b == 42
    ||| b == 45
    ||| b == 46
    ||| b == 95
}

/// A byte in a form-encoded query.
pub open spec fn encoded_byte(b: u8) -> Seq<char> {
    if plain_byte(b) {
        seq![b as char]
    } else if b == 32 {
        seq!['+']
    } else {
        seq!['%', upper_hex(b as int / 16), upper_hex(b as int % 16)]
    }
}

/// Bytes in a form-encoded query.
pub open spec fn encoded_bytes(bytes: Seq<u8>) -> Seq<char>
    decreases bytes.len(),
{
    if bytes.len() == 0 {
        Seq::empty()
    } else {
        encoded_byte(bytes[0]) + encoded_bytes(bytes.skip(1))
    }
}

/// A text in a form-encoded query.
pub open spec fn encoded_text(s: Seq<char>) -> Seq<char> {
    encoded_bytes(vstd::utf8::encode_utf8(s))
}

/// A name and its value in a form-encoded query.
pub open spec fn encoded_pair(pair: (Seq<char>, Seq<char>)) -> Seq<char> {
    encoded_text(pair.0) + seq!['='] + encoded_text(pair.1)
}

/// A form-encoded query.
pub open spec fn encoded_pairs(pairs: Seq<(Seq<char>, Seq<char>)>) -> Seq<char>
    decreases pairs.len(),
{
    if pairs.len() == 0 {
        Seq::empty()
    } else if pairs.len() == 1 {
        encoded_pair(pairs[0])
    } else {
        encoded_pair(pairs[0]) + seq!['&'] + encoded_pairs(pairs.skip(1))
    }
}

/// A URL without its fragment.
pub open spec fn before_fragment(url: Seq<char>) -> Seq<char> {
    match text::first_split(url, '#') {
        Some((base, _)) => base,
        None => url,
    }
}

/// The fragment of a URL, with its `#`.
pub open spec fn fragment(url: Seq<char>) -> Seq<char> {
    url.skip(before_fragment(url).len() as int)
}

/// What has to stand between a URL without its fragment and one more pair.
pub open spec fn separator(base: Seq<char>) -> Seq<char> {
    match text::first_split(base, '?') {
        None => seq!['?'],
        Some((_, query)) => if query.len() == 0 {
            Seq::empty()
        } else {
            seq!['&']
        },
    }
}

/// `url` with `pairs` appended to its query.
pub open spec fn with_pairs(url: Seq<char>, pairs: Seq<(Seq<char>, Seq<char>)>) -> Seq<char> {
    before_fragment(url) + separator(before_fragment(url)) + encoded_pairs(pairs) + fragment(url)
}

/// The names and values as contracts speak of them.
pub open spec fn pair_models(pairs: Seq<(String, String)>) -> Seq<(Seq<char>, Seq<char>)> {
    pairs.map_values(|p: (String, String)| (p.0@, p.1@))
}

/// How many bytes a URL has room for with `pairs` in its query: its own, a
/// separator and the encoded pairs.
pub open spec fn extended_len(url: Seq<char>, pairs: Seq<(Seq<char>, Seq<char>)>) -> nat {
    vstd::utf8::encode_utf8(url).len() + 1 + encoded_pairs(pairs).len()
}

/// A character of a scheme that is written in lower case.
pub open spec fn scheme_char(c: char) -> bool {
    ||| 'a' <= c && c <= 'z'
    ||| '0' <= c && c <= '9'
    ||| c == '+'
    ||| c == '-'
    ||| c == '.'
}

/// `text` begins with a scheme in lower case, which ends with the colon at `k`.
pub open spec fn scheme_ends(text: Seq<char>, k: int) -> bool {
    &&& 0 < k < text.len()
    &&& text[k] == ':'
    &&& 'a' <= text[0] && text[0] <= 'z'
    &&& forall|i: int| 0 <= i < k ==> scheme_char(#[trigger] text[i])
}

/// `url` begins with the scheme that `text` begins with, if `text` begins with
/// one in lower case.
pub open spec fn keeps_scheme(text: Seq<char>, url: Seq<char>) -> bool {
    forall|k: int| #[trigger] scheme_ends(text, k) ==> text.take(k + 1).is_prefix_of(url)
}

/// A URL that a browser can follow.
pub open spec fn web_url(url: Seq<char>) -> bool {
    "http://"@.is_prefix_of(url) || "https://"@.is_prefix_of(url)
}

/// The normal form of a URL, if the text is one.
pub uninterp spec fn url_text(text: Seq<char>) -> Option<Seq<char>>;

/// `Url::parse` of the `url` crate, with the text of the URL that it returns.
/// That text is left as a name; a scheme in lower case at the very beginning is
/// kept as it is.
#[verifier::external_body]
fn parse_url(text: &str) -> (r: Option<String>)
    ensures
        match r {
            Some(url) => url_text(text@) == Some(url@) && keeps_scheme(text@, url@),
            None => url_text(text@) is None,
        },
{
    Url::parse(text).ok().map(String::from)
}

/// `Url::query_pairs_mut` of the `url` crate with `extend_pairs` on it: the
/// pairs are form-encoded and joined by `&`; they follow the query that the URL
/// has, or a new `?`, and its fragment stays last. The bound keeps every position
/// in the result within the 32 bits that the crate counts with.
#[verifier::external_body]
fn extend_query(text: &str, pairs: &Vec<(String, String)>) -> (r: String)
    requires
        url_text(text@) matches Some(url) && extended_len(url, pair_models(pairs@)) <= u32::MAX,
        pairs@.len() > 0,
    ensures
        r@ == with_pairs(url_text(text@)->0, pair_models(pairs@)),
{
    let mut url = Url::parse(text).expect("a URL");
    url.query_pairs_mut().extend_pairs(pairs.iter());
    url.into()
}

/// The normal form of a URL, if the text is one.
pub fn normal_url(text: &str) -> (r: Option<String>)
    ensures
        r.deep_view() == url_text(text@),
        r matches Some(url) ==> keeps_scheme(text@, url@),
{
    parse_url(text)
}

/// Whether a URL is one that a browser can follow.
pub fn is_web_url(url: &str) -> (r: bool)
    ensures
        r == web_url(url@),
{
    starts_with(url, "http://") || starts_with(url, "https://")
}

/// What is left of `room` after the encoding of `bytes`, if that fits.
fn room_after(room: u64, bytes: &[u8]) -> (r: Option<u64>)
    ensures
        match r {
            Some(left) => encoded_bytes(bytes@).len() + left == room,
            None => encoded_bytes(bytes@).len() > room,
        },
{
    let mut left: u64 = room;
    let mut i: usize = bytes.len();
    assert(bytes@.skip(i as int) =~= Seq::empty());
    while i > 0
        invariant
            i <= bytes@.len(),
            encoded_bytes(bytes@.skip(i as int)).len() + left == room,
        decreases i,
    {
        i = i - 1;
        let b: u8 = bytes[i];
        let plain: bool = 48 <= b && b <= 57 || 65 <= b && b <= 90 || 97 <= b && b <= 122 || b == 42
            || b == 45 || b == 46 || b == 95;
        let cost: u64 = if plain || b == 32 {
            1
        } else {
            3
        };
        proof {
            assert(bytes@.skip(i as int).skip(1) =~= bytes@.skip(i + 1));
            assert(encoded_byte(b).len() == cost);
            lemma_suffix_is_no_longer(bytes@, i as int);
        }
        if cost > left {
            return None;
        }
        left = left - cost;
    }
    assert(bytes@.skip(0) =~= bytes@);
    Some(left)
}

proof fn lemma_suffix_is_no_longer(bytes: Seq<u8>, i: int)
    requires
        0 <= i <= bytes.len(),
    ensures
        encoded_bytes(bytes.skip(i)).len() <= encoded_bytes(bytes).len(),
    decreases i,
{
    if i == 0 {
        assert(bytes.skip(0) =~= bytes);
    } else {
        lemma_suffix_is_no_longer(bytes, i - 1);
        assert(bytes.skip(i - 1).skip(1) =~= bytes.skip(i));
    }
}

/// What is left of `room` after one byte, if there is room for it.
fn room_after_one(room: u64) -> (r: Option<u64>)
    ensures
        match r {
            Some(left) => left + 1 == room,
            None => room == 0,
        },
{
    if room > 0 {
        Some(room - 1)
    } else {
        None
    }
}

/// What is left of `room` after a pair, if that fits.
fn room_after_pair(room: u64, pair: &(String, String)) -> (r: Option<u64>)
    ensures
        match r {
            Some(left) => encoded_pair((pair.0@, pair.1@)).len() + left == room,
            None => encoded_pair((pair.0@, pair.1@)).len() > room,
        },
{
    match room_after(room, pair.0.as_str().as_bytes()) {
        Some(left) => match room_after_one(left) {
            Some(rest) => room_after(rest, pair.1.as_str().as_bytes()),
            None => None,
        },
        None => None,
    }
}

/// Whether a URL can be extended by `pairs`: the text is a URL, and the result
/// fits in the 32 bits that positions in it are counted with.
pub open spec fn extensible(text: Seq<char>, pairs: Seq<(Seq<char>, Seq<char>)>) -> bool {
    url_text(text) matches Some(url) && extended_len(url, pairs) <= u32::MAX
}

/// Append pairs to the query of a URL.
pub fn append_pairs(text: &str, pairs: &Vec<(String, String)>) -> (r: String)
    requires
        extensible(text@, pair_models(pairs@)),
        pairs@.len() > 0,
    ensures
        r@ == with_pairs(url_text(text@)->0, pair_models(pairs@)),
{
    extend_query(text, pairs)
}

/// Whether a URL can be extended by `pairs`.
pub fn can_append(text: &str, pairs: &Vec<(String, String)>) -> (r: bool)
    ensures
        r == extensible(text@, pair_models(pairs@)),
{
    let url: String = match parse_url(text) {
        Some(url) => url,
        None => return false,
    };
    let taken: u64 = url.as_str().as_bytes().len() as u64;
    let limit: u64 = u32::MAX as u64;
    if taken >= limit {
        return false;
    }
    let start: u64 = limit - taken - 1;
    let mut room: u64 = start;
    let mut i: usize = pairs.len();
    let ghost all = pair_models(pairs@);
    assert(all.skip(i as int) =~= Seq::empty());
    while i > 0
        invariant
            i <= pairs@.len(),
            all == pair_models(pairs@),
            encoded_pairs(all.skip(i as int)).len() + room == start,
            url_text(text@) == Some(url@),
            start + 1 + vstd::utf8::encode_utf8(url@).len() == u32::MAX,
        decreases i,
    {
        let last: bool = i == pairs.len();
        i = i - 1;
        proof {
            assert(all.skip(i as int).skip(1) =~= all.skip(i + 1));
            lemma_pairs_suffix_is_no_longer(all, i as int);
        }
        if !last {
            room = match room_after_one(room) {
                Some(left) => left,
                None => return false,
            };
        }
        room = match room_after_pair(room, &pairs[i]) {
            Some(left) => left,
            None => return false,
        };
    }
    assert(all.skip(0) =~= all);
    true
}

proof fn lemma_pairs_suffix_is_no_longer(pairs: Seq<(Seq<char>, Seq<char>)>, i: int)
    requires
        0 <= i <= pairs.len(),
    ensures
        encoded_pairs(pairs.skip(i)).len() <= encoded_pairs(pairs).len(),
    decreases i,
{
    if i == 0 {
        assert(pairs.skip(0) =~= pairs);
    } else {
        lemma_pairs_suffix_is_no_longer(pairs, i - 1);
        assert(pairs.skip(i - 1).skip(1) =~= pairs.skip(i));
    }
}

/// Append pairs to the query of a URL, unless the text is no URL or there is
/// too much of it.
pub fn try_append_pairs(text: &str, pairs: &Vec<(String, String)>) -> (r: Option<String>)
    requires
        pairs@.len() > 0,
    ensures
        match r {
            Some(url) => extensible(text@, pair_models(pairs@)) && url@ == with_pairs(
                url_text(text@)->0,
                pair_models(pairs@),
            ),
            None => !extensible(text@, pair_models(pairs@)),
        },
{
    if can_append(text, pairs) {
        Some(append_pairs(text, pairs))
    } else {
        None
    }
}

proof fn lemma_upper_hex(d: int)
    requires
        0 <= d < 16,
    ensures
        upper_hex(d) as int == if d < 10 {
            48 + d
        } else {
            55 + d
        },
{
}

proof fn lemma_encoded_byte(b: u8, i: int)
    requires
        0 <= i < encoded_byte(b).len(),
    ensures
        encoded_byte(b)[i] != '&' && encoded_byte(b)[i] != '=' && encoded_byte(b)[i] != '#'
            && encoded_byte(b)[i] != '?',
{
    lemma_upper_hex(b as int / 16);
    lemma_upper_hex(b as int % 16);
    if plain_byte(b) {
        assert((b as char) as int == b);
    }
}

/// An encoded text holds no character that separates pairs, names or the parts
/// of a URL.
pub proof fn encodings_hold_no_separators(bytes: Seq<u8>)
    ensures
        !encoded_bytes(bytes).contains('&'),
        !encoded_bytes(bytes).contains('='),
        !encoded_bytes(bytes).contains('#'),
        !encoded_bytes(bytes).contains('?'),
    decreases bytes.len(),
{
    let all = encoded_bytes(bytes);
    if bytes.len() > 0 {
        let head = encoded_byte(bytes[0]);
        let tail = encoded_bytes(bytes.skip(1));
        encodings_hold_no_separators(bytes.skip(1));
        assert forall|i: int| 0 <= i < all.len() implies (#[trigger] all[i]) != '&' && all[i] != '='
            && all[i] != '#' && all[i] != '?' by {
            if i < head.len() {
                assert(all[i] == head[i]);
                lemma_encoded_byte(bytes[0], i);
            } else {
                assert(all[i] == tail[i - head.len()]);
                assert(tail.contains(tail[i - head.len()]));
            }
        }
    }
}

/// Different bytes have different encodings.
pub proof fn encoding_is_injective(a: Seq<u8>, b: Seq<u8>)
    requires
        encoded_bytes(a) == encoded_bytes(b),
    ensures
        a == b,
    decreases a.len(),
{
    if a.len() == 0 {
        if b.len() > 0 {
            assert(encoded_byte(b[0]).len() > 0);
            assert(encoded_bytes(b).len() > 0);
        }
        assert(a =~= b);
    } else if b.len() == 0 {
        assert(encoded_byte(a[0]).len() > 0);
        assert(encoded_bytes(a).len() > 0);
    } else {
        let (x, y) = (encoded_byte(a[0]), encoded_byte(b[0]));
        let (s, t) = (encoded_bytes(a.skip(1)), encoded_bytes(b.skip(1)));
        assert((x + s)[0] == x[0]);
        assert((y + t)[0] == y[0]);
        if plain_byte(a[0]) {
            assert((a[0] as char) as int == a[0]);
        }
        if plain_byte(b[0]) {
            assert((b[0] as char) as int == b[0]);
        }
        if x[0] == '%' {
            lemma_upper_hex(a[0] as int / 16);
            lemma_upper_hex(a[0] as int % 16);
            lemma_upper_hex(b[0] as int / 16);
            lemma_upper_hex(b[0] as int % 16);
            assert((x + s)[1] == x[1] && (x + s)[2] == x[2]);
            assert((y + t)[1] == y[1] && (y + t)[2] == y[2]);
        }
        assert(a[0] == b[0]);
        assert(s =~= (x + s).skip(x.len() as int));
        assert(t =~= (y + t).skip(y.len() as int));
        encoding_is_injective(a.skip(1), b.skip(1));
        assert(a =~= seq![a[0]] + a.skip(1));
        assert(b =~= seq![b[0]] + b.skip(1));
    }
}

/// A text can be told from its encoding.
pub proof fn texts_are_told_from_their_encodings(a: Seq<char>, b: Seq<char>)
    requires
        encoded_text(a) == encoded_text(b),
    ensures
        a == b,
{
    encoding_is_injective(vstd::utf8::encode_utf8(a), vstd::utf8::encode_utf8(b));
    vstd::utf8::encode_utf8_decode_utf8(a);
    vstd::utf8::encode_utf8_decode_utf8(b);
}

/// A query comes apart into the pairs that it was made of: cut at every `&` it
/// gives one piece per pair, and each piece, cut at its first `=`, gives the
/// encoded name and the encoded value.
pub proof fn queries_come_apart(pairs: Seq<(Seq<char>, Seq<char>)>, i: int)
    requires
        0 <= i < pairs.len(),
    ensures
        ({
            let pieces = text::segments(encoded_pairs(pairs), '&');
            &&& pieces.len() == pairs.len()
            &&& text::first_split(pieces[i], '=') == Some(
                (encoded_text(pairs[i].0), encoded_text(pairs[i].1)),
            )
        }),
    decreases pairs.len(),
{
    let first = encoded_pair(pairs[0]);
    let name = encoded_text(pairs[0].0);
    let value = encoded_text(pairs[0].1);
    encodings_hold_no_separators(vstd::utf8::encode_utf8(pairs[0].0));
    encodings_hold_no_separators(vstd::utf8::encode_utf8(pairs[0].1));
    text::joined_texts_are_cut_at_the_separator(name, '=', value);
    assert(!first.contains('&')) by {
        assert forall|k: int| 0 <= k < first.len() implies #[trigger] first[k] != '&' by {
            if k < name.len() {
                assert(first[k] == name[k]);
            } else if k > name.len() {
                assert(first[k] == value[k - name.len() - 1]);
            }
        }
    }
    if pairs.len() == 1 {
        text::first_split_loses_nothing(encoded_pairs(pairs), '&');
        assert(text::segments(encoded_pairs(pairs), '&') =~= seq![first]);
    } else {
        let rest = encoded_pairs(pairs.skip(1));
        text::joined_texts_are_cut_at_the_separator(first, '&', rest);
        assert(text::segments(encoded_pairs(pairs), '&') =~= seq![first] + text::segments(
            rest,
            '&',
        ));
        queries_come_apart(pairs.skip(1), if i == 0 {
            0
        } else {
            i - 1
        });
    }
}

proof fn lemma_pairs_hold_no_hash(pairs: Seq<(Seq<char>, Seq<char>)>)
    ensures
        !encoded_pairs(pairs).contains('#'),
    decreases pairs.len(),
{
    let all = encoded_pairs(pairs);
    if pairs.len() > 0 {
        let name = encoded_text(pairs[0].0);
        let value = encoded_text(pairs[0].1);
        let rest = encoded_pairs(pairs.skip(1));
        encodings_hold_no_separators(vstd::utf8::encode_utf8(pairs[0].0));
        encodings_hold_no_separators(vstd::utf8::encode_utf8(pairs[0].1));
        lemma_pairs_hold_no_hash(pairs.skip(1));
        let n = name.len() as int;
        let v = value.len() as int;
        assert forall|k: int| 0 <= k < all.len() implies #[trigger] all[k] != '#' by {
            if k < n {
                assert(all[k] == name[k]);
            } else if k > n && k < n + 1 + v {
                assert(all[k] == value[k - n - 1]);
            } else if k > n + 1 + v {
                assert(all[k] == rest[k - n - v - 2]);
            }
        }
    }
}

/// The query of a URL, without its fragment.
pub open spec fn query_of(url: Seq<char>) -> Option<Seq<char>> {
    match text::first_split(before_fragment(url), '?') {
        Some((_, query)) => Some(query),
        None => None,
    }
}

/// How many pieces the query of a URL has.
pub open spec fn query_pieces(url: Seq<char>) -> nat {
    match query_of(url) {
        Some(query) => if query.len() == 0 {
            0
        } else {
            text::segments(query, '&').len()
        },
        None => 0,
    }
}

/// The query of an extended URL comes apart into the pieces that it had before
/// and one more for each pair; these, cut at their first `=`, give the encoded
/// names and values. The fragment is what it was.
pub proof fn extended_queries_come_apart(
    url: Seq<char>,
    pairs: Seq<(Seq<char>, Seq<char>)>,
    i: int,
)
    requires
        0 <= i < pairs.len(),
    ensures
        ({
            let r = with_pairs(url, pairs);
            &&& fragment(r) == fragment(url)
            &&& query_of(r) matches Some(query)
            &&& text::segments(query, '&').len() == query_pieces(url) + pairs.len()
            &&& query_pieces(url) > 0 ==> text::segments(query, '&').take(query_pieces(url) as int)
                == text::segments(query_of(url)->0, '&')
            &&& text::first_split(text::segments(query, '&')[query_pieces(url) + i], '=') == Some(
                (encoded_text(pairs[i].0), encoded_text(pairs[i].1)),
            )
        }),
{
    let base = before_fragment(url);
    let tail = fragment(url);
    let enc = encoded_pairs(pairs);
    let longer = base + separator(base) + enc;
    let r = with_pairs(url, pairs);
    lemma_pairs_hold_no_hash(pairs);
    text::first_split_loses_nothing(url, '#');
    assert(!longer.contains('#')) by {
        assert forall|k: int| 0 <= k < longer.len() implies #[trigger] longer[k] != '#' by {
            if k < base.len() {
                assert(longer[k] == base[k]);
                assert(base[k] == url[k]);
            } else if k >= base.len() + separator(base).len() {
                assert(longer[k] == enc[k - base.len() - separator(base).len()]);
            }
        }
    }
    assert(before_fragment(r) == longer) by {
        if text::first_split(url, '#') is Some {
            assert(tail =~= seq!['#'] + tail.skip(1)) by {
                assert(tail[0] == '#');
            }
            text::joined_texts_are_cut_at_the_separator(longer, '#', tail.skip(1));
            assert(r =~= longer + seq!['#'] + tail.skip(1));
        } else {
            assert(tail =~= Seq::empty());
            assert(r =~= longer);
            text::first_split_loses_nothing(r, '#');
        }
    }
    assert(fragment(r) =~= tail);
    queries_come_apart(pairs, i);
    text::first_split_loses_nothing(base, '?');
    match text::first_split(base, '?') {
        None => {
            text::joined_texts_are_cut_at_the_separator(base, '?', enc);
            assert(longer =~= base + seq!['?'] + enc);
        },
        Some((path, query)) => {
            text::first_split_loses_nothing(base, '?');
            let after = query + separator(base) + enc;
            text::joined_texts_are_cut_at_the_separator(path, '?', after);
            assert(longer =~= path + seq!['?'] + after);
            if query.len() == 0 {
                assert(after =~= enc);
            } else {
                text::segments_of_joined_texts(query, '&', enc);
                assert(text::segments(after, '&').take(query_pieces(url) as int)
                    =~= text::segments(query, '&'));
            }
        },
    }
}

/// The extended URL begins with the URL as it was, up to its fragment.
pub proof fn extended_urls_keep_what_they_had(
    url: Seq<char>,
    pairs: Seq<(Seq<char>, Seq<char>)>,
)
    ensures
        before_fragment(url).is_prefix_of(with_pairs(url, pairs)),
        before_fragment(url) + fragment(url) == url,
{
    let base = before_fragment(url);
    let r = with_pairs(url, pairs);
    text::first_split_loses_nothing(url, '#');
    assert(base =~= url.take(base.len() as int));
    assert(base + fragment(url) =~= url);
    assert(r.take(base.len() as int) =~= base);
}

/// An extended URL begins as it did before, up to its fragment.
proof fn lemma_beginning_is_kept(
    beginning: Seq<char>,
    url: Seq<char>,
    pairs: Seq<(Seq<char>, Seq<char>)>,
)
    requires
        beginning.is_prefix_of(url),
        !beginning.contains('#'),
    ensures
        beginning.is_prefix_of(with_pairs(url, pairs)),
{
    let r = with_pairs(url, pairs);
    let base = before_fragment(url);
    let n = beginning.len() as int;
    extended_urls_keep_what_they_had(url, pairs);
    text::first_split_loses_nothing(url, '#');
    if base.len() < n {
        assert(beginning[base.len() as int] == url[base.len() as int]);
        assert(url[base.len() as int] == '#');
        assert(beginning.contains('#'));
    }
    assert forall|k: int| 0 <= k < n implies beginning[k] == r[k] by {
        assert(beginning[k] == url[k]);
        assert(base[k] == url[k]);
        assert(base[k] == r[k]);
    }
    assert(beginning =~= r.take(n));
}

/// A URL that a browser can follow is still one after it has been extended.
pub proof fn extended_web_urls_are_web_urls(
    url: Seq<char>,
    pairs: Seq<(Seq<char>, Seq<char>)>,
)
    requires
        web_url(url),
    ensures
        web_url(with_pairs(url, pairs)),
{
    if "http://"@.is_prefix_of(url) {
        assert(!"http://"@.contains('#')) by {
            reveal_strlit("http://");
        }
        lemma_beginning_is_kept("http://"@, url, pairs);
    } else {
        assert(!"https://"@.contains('#')) by {
            reveal_strlit("https://");
        }
        lemma_beginning_is_kept("https://"@, url, pairs);
    }
}

/// A text that begins as a DID does is no URL that a browser can follow, and
/// does not become one by being brought into normal form.
pub proof fn dids_are_no_web_urls(text: Seq<char>, url: Seq<char>)
    requires
        "did:"@.is_prefix_of(text),
        keeps_scheme(text, url),
    ensures
        !web_url(url),
{
    reveal_strlit("did:");
    reveal_strlit("http://");
    reveal_strlit("https://");
    assert("did:"@ =~= text.take(4));
    assert forall|i: int| 0 <= i < 4 implies text[i] == "did:"@[i] by {
        assert(text.take(4)[i] == text[i]);
    }
    assert(scheme_ends(text, 3));
    assert(url[0] == 'd') by {
        assert(text.take(4).is_prefix_of(url));
        assert(text.take(4)[0] == url[0]);
    }
    if "http://"@.is_prefix_of(url) {
        assert("http://"@[0] == url[0]);
    }
    if "https://"@.is_prefix_of(url) {
        assert("https://"@[0] == url[0]);
    }
}

} // verus!
