//! Text helpers shared by the rest of the crate, each stated over `Seq<char>`.

use vstd::prelude::*;

verus! {

/// Appending a character to a string, as the standard library documents it.
pub assume_specification[ String::push ](s: &mut String, c: char)
    ensures
        final(s)@ == old(s)@.push(c),
;

/// The pieces of `s` between the occurrences of `c`; one more than there are
/// occurrences.
pub open spec fn segments(s: Seq<char>, c: char) -> Seq<Seq<char>>
    decreases s.len(),
{
    match first_split(s, c) {
        Some((head, tail)) => if tail.len() < s.len() {
            seq![head] + segments(tail, c)
        } else {
            seq![s]
        },
        None => seq![s],
    }
}

/// `s` cut at its first `c`: what stands before it and what stands after it.
pub open spec fn first_split(s: Seq<char>, c: char) -> Option<(Seq<char>, Seq<char>)> {
    match s.index_of_first(c) {
        Some(i) => Some((s.take(i), s.skip(i + 1))),
        None => None,
    }
}

/// `s` without the run of `c` at its end.
pub open spec fn trimmed_end(s: Seq<char>, c: char) -> Seq<char>
    decreases s.len(),
{
    if s.len() > 0 && s.last() == c {
        trimmed_end(s.drop_last(), c)
    } else {
        s
    }
}

/// `c` with an ASCII upper-case letter replaced by its lower-case form.
pub open spec fn ascii_lower(c: char) -> char {
    if 'A' <= c && c <= 'Z' {
        (c as u32 + 32) as char
    } else {
        c
    }
}

/// Every character of `s` in ASCII lower case.
pub open spec fn lowered(s: Seq<char>) -> Seq<char> {
    s.map_values(|c: char| ascii_lower(c))
}

/// `part` stands somewhere in `s` as one run.
pub open spec fn has_part(s: Seq<char>, part: Seq<char>) -> bool {
    exists|i: int| part_at(s, part, i)
}

/// `part` stands in `s` at position `i`.
pub open spec fn part_at(s: Seq<char>, part: Seq<char>, i: int) -> bool {
    0 <= i <= s.len() - part.len() && s.subrange(i, i + part.len()) == part
}

/// The character of a decimal digit.
pub open spec fn digit_char(d: nat) -> char {
    (48 + d) as char
}

/// `n` in decimal, without leading zeros.
pub open spec fn decimal(n: nat) -> Seq<char>
    decreases n,
{
    if n < 10 {
        seq![digit_char(n)]
    } else {
        decimal(n / 10).push(digit_char(n % 10))
    }
}

/// `n` in decimal, with a minus sign where it is negative.
pub open spec fn signed_decimal(n: int) -> Seq<char> {
    if n < 0 {
        seq!['-'] + decimal((-n) as nat)
    } else {
        decimal(n as nat)
    }
}

pub open spec fn is_digit(c: char) -> bool {
    '0' <= c && c <= '9'
}

pub open spec fn all_digits(s: Seq<char>) -> bool {
    forall|i: int| 0 <= i < s.len() ==> is_digit(#[trigger] s[i])
}

/// The number that a run of decimal digits writes.
pub open spec fn digits_value(s: Seq<char>) -> nat
    decreases s.len(),
{
    if s.len() == 0 {
        0
    } else {
        10 * digits_value(s.drop_last()) + (s.last() as nat - 48) as nat
    }
}

/// `s` without one leading plus sign.
pub open spec fn unsigned_part(s: Seq<char>) -> Seq<char> {
    if s.len() > 0 && s[0] == '+' {
        s.skip(1)
    } else {
        s
    }
}

/// The number that `s` writes: an optional plus sign and at least one decimal
/// digit, nothing else, and no more than a `u64` holds.
pub open spec fn parsed_u64(s: Seq<char>) -> Option<u64> {
    let digits = unsigned_part(s);
    if digits.len() > 0 && all_digits(digits) && digits_value(digits) <= u64::MAX {
        Some(digits_value(digits) as u64)
    } else {
        None
    }
}

/// Position of the first `c` in `s`, if there is one.
pub fn find_char(s: &str, c: char) -> (found: Option<usize>)
    ensures
        match found {
            Some(i) => s@.index_of_first(c) == Some(i as int) && i < s@.len(),
            None => s@.index_of_first(c) is None,
        },
{
    let total: usize = s.unicode_len();
    let mut at: usize = 0;
    proof {
        s@.index_of_first_ensures(c);
    }
    for ch in it: s.chars()
        invariant
            total == s@.len(),
            it.seq() == s@,
            at == it.index(),
            forall|j: int| 0 <= j < at ==> s@[j] != c,
            match s@.index_of_first(c) {
                Some(i) => 0 <= i < s@.len() && s@[i] == c && (forall|j: int|
                    0 <= j < i ==> s@[j] != c),
                None => !s@.contains(c),
            },
    {
        if ch == c {
            assert(s@.contains(c));
            return Some(at);
        }
        at = at + 1;
    }
    None
}

/// Cut `s` at its first `c`.
pub fn split_once<'a>(s: &'a str, c: char) -> (r: Option<(&'a str, &'a str)>)
    ensures
        match r {
            Some((head, tail)) => first_split(s@, c) == Some((head@, tail@)),
            None => first_split(s@, c) is None,
        },
{
    let total: usize = s.unicode_len();
    match find_char(s, c) {
        Some(i) => Some((s.substring_char(0, i), s.substring_char(i + 1, total))),
        None => None,
    }
}

/// Drop the run of `c` at the end of `s`.
pub fn trim_end_matches<'a>(s: &'a str, c: char) -> (r: &'a str)
    ensures
        r@ == trimmed_end(s@, c),
{
    let total: usize = s.unicode_len();
    let mut at: usize = 0;
    let mut keep: usize = 0;
    for ch in it: s.chars()
        invariant
            total == s@.len(),
            it.seq() == s@,
            at == it.index(),
            keep <= at,
            keep > 0 ==> s@[keep - 1] != c,
            forall|j: int| keep <= j < at ==> s@[j] == c,
    {
        at = at + 1;
        if ch != c {
            keep = at;
        }
    }
    proof {
        lemma_trimmed_end(s@, c, keep as int);
    }
    s.substring_char(0, keep)
}

proof fn lemma_trimmed_end(s: Seq<char>, c: char, keep: int)
    requires
        0 <= keep <= s.len(),
        keep > 0 ==> s[keep - 1] != c,
        forall|j: int| keep <= j < s.len() ==> s[j] == c,
    ensures
        trimmed_end(s, c) == s.take(keep),
    decreases s.len(),
{
    if keep < s.len() {
        lemma_trimmed_end(s.drop_last(), c, keep);
        assert(s.drop_last().take(keep) =~= s.take(keep));
    } else {
        assert(s.take(keep) =~= s);
    }
}

/// Whether two strings hold the same characters.
pub fn same_text(a: &str, b: &str) -> (same: bool)
    ensures
        same == (a@ == b@),
{
    let x: &[u8] = a.as_bytes();
    let y: &[u8] = b.as_bytes();
    proof {
        vstd::utf8::encode_utf8_decode_utf8(a@);
        vstd::utf8::encode_utf8_decode_utf8(b@);
    }
    if x.len() != y.len() {
        return false;
    }
    let mut i: usize = 0;
    while i < x.len()
        invariant
            x.len() == y.len(),
            i <= x.len(),
            x@ == vstd::utf8::encode_utf8(a@),
            y@ == vstd::utf8::encode_utf8(b@),
            forall|j: int| 0 <= j < i ==> x@[j] == y@[j],
        decreases x.len() - i,
    {
        if x[i] != y[i] {
            return false;
        }
        i = i + 1;
    }
    assert(x@ =~= y@);
    true
}

/// Whether `s` begins with `prefix`.
pub fn starts_with(s: &str, prefix: &str) -> (r: bool)
    ensures
        r == prefix@.is_prefix_of(s@),
{
    let n: usize = prefix.unicode_len();
    if n > s.unicode_len() {
        return false;
    }
    let head: &str = s.substring_char(0, n);
    assert(head@ =~= s@.take(n as int));
    same_text(head, prefix)
}

/// Put two texts one after the other.
pub fn joined(a: &str, b: &str) -> (r: String)
    ensures
        r@ == a@ + b@,
{
    let mut out: String = a.to_owned();
    out.append(b);
    out
}

/// A copy of an optional text.
pub(crate) fn copy_text(s: &Option<String>) -> (r: Option<String>)
    ensures
        r.deep_view() == s.deep_view(),
{
    match s {
        Some(t) => Some(t.clone()),
        None => None,
    }
}

/// The characters of `s` in ASCII lower case.
pub fn lowered_chars(s: &str) -> (r: Vec<char>)
    ensures
        r@ == lowered(s@),
{
    let mut out: Vec<char> = Vec::new();
    for ch in it: s.chars()
        invariant
            it.seq() == s@,
            out@ == lowered(s@.take(it.index() as int)),
    {
        let low: char = if 'A' <= ch && ch <= 'Z' {
            (ch as u8 + 32) as char
        } else {
            ch
        };
        out.push(low);
        assert(s@.take(it.index() + 1) =~= s@.take(it.index() as int).push(ch));
    }
    assert(s@.take(s@.len() as int) =~= s@);
    out
}

/// Whether `part` stands somewhere in `s`.
pub fn contains_part(s: &Vec<char>, part: &Vec<char>) -> (found: bool)
    ensures
        found == has_part(s@, part@),
{
    let n: usize = s.len();
    let k: usize = part.len();
    if k > n {
        return false;
    }
    let mut i: usize = 0;
    while i <= n - k
        invariant
            n == s@.len(),
            k == part@.len(),
            k <= n,
            i <= n - k + 1,
            forall|j: int| 0 <= j < i ==> !part_at(s@, part@, j),
        decreases n - i,
    {
        let mut m: usize = 0;
        while m < k && s[i + m] == part[m]
            invariant
                n == s@.len(),
                k == part@.len(),
                i + k <= n,
                m <= k,
                forall|j: int| 0 <= j < m ==> s@[i + j] == part@[j],
            decreases k - m,
        {
            m = m + 1;
        }
        if m == k {
            assert(s@.subrange(i as int, i + k) =~= part@);
            assert(part_at(s@, part@, i as int));
            return true;
        }
        assert(s@.subrange(i as int, i + k)[m as int] != part@[m as int]);
        if i == n - k {
            assert(forall|j: int| part_at(s@, part@, j) ==> j <= i);
            return false;
        }
        i = i + 1;
    }
    false
}

fn digit(d: u64) -> (c: char)
    requires
        d < 10,
    ensures
        c == digit_char(d as nat),
{
    (48 + d as u8) as char
}

/// `n` written in decimal.
pub fn decimal_u64(n: u64) -> (r: String)
    ensures
        r@ == decimal(n as nat),
    decreases n,
{
    if n < 10 {
        let mut out: String = String::new();
        out.push(digit(n));
        assert(out@ =~= decimal(n as nat));
        out
    } else {
        let mut out: String = decimal_u64(n / 10);
        out.push(digit(n % 10));
        out
    }
}

/// `n` written in decimal, with its sign where it is negative.
pub fn decimal_i64(n: i64) -> (r: String)
    ensures
        r@ == signed_decimal(n as int),
{
    if n < 0 {
        let magnitude: u64 = (-(n as i128)) as u64;
        let mut out: String = String::new();
        out.push('-');
        out.append(decimal_u64(magnitude).as_str());
        assert(out@ =~= signed_decimal(n as int));
        out
    } else {
        decimal_u64(n as u64)
    }
}

/// Read an unsigned number: an optional plus sign, then decimal digits.
pub fn parse_u64(s: &str) -> (r: Option<u64>)
    ensures
        r == parsed_u64(s@),
{
    let total: usize = s.unicode_len();
    let digits: &str = if total > 0 && s.get_char(0) == '+' {
        s.substring_char(1, total)
    } else {
        s
    };
    assert(digits@ =~= unsigned_part(s@));
    let count: usize = digits.unicode_len();
    if count == 0 {
        return None;
    }
    let mut value: u64 = 0;
    for ch in it: digits.chars()
        invariant
            it.seq() == digits@,
            digits@ == unsigned_part(s@),
            digits@.len() > 0,
            all_digits(digits@.take(it.index() as int)),
            value == digits_value(digits@.take(it.index() as int)),
    {
        let ghost before = digits@.take(it.index() as int);
        let ghost after = digits@.take(it.index() + 1);
        assert(after =~= before.push(ch));
        assert(after.drop_last() =~= before);
        if ch < '0' || ch > '9' {
            assert(digits@[it.index() as int] == ch);
            return None;
        }
        let d: u64 = ch as u64 - 48;
        assert(digits_value(after) == 10 * digits_value(before) + d);
        proof {
            lemma_prefix_value(digits@, it.index() + 1);
        }
        if value > (u64::MAX - d) / 10 {
            return None;
        }
        value = value * 10 + d;
    }
    assert(digits@.take(digits@.len() as int) =~= digits@);
    Some(value)
}

/// A prefix of a run of digits writes no larger a number than the whole.
proof fn lemma_prefix_value(s: Seq<char>, n: int)
    requires
        0 <= n <= s.len(),
    ensures
        digits_value(s.take(n)) <= digits_value(s),
    decreases s.len(),
{
    if n < s.len() {
        lemma_prefix_value(s.drop_last(), n);
        assert(s.drop_last().take(n) =~= s.take(n));
    } else {
        assert(s.take(n) =~= s);
    }
}

proof fn lemma_decimal_digits(n: nat)
    ensures
        decimal(n).len() > 0,
        all_digits(decimal(n)),
        digits_value(decimal(n)) == n,
    decreases n,
{
    if n < 10 {
        let s = decimal(n);
        assert(s.drop_last() =~= Seq::<char>::empty());
        assert(digits_value(s.drop_last()) == 0);
    } else {
        lemma_decimal_digits(n / 10);
        let s = decimal(n);
        assert(s.drop_last() =~= decimal(n / 10));
    }
}

/// What is written in decimal reads back as the same number.
pub proof fn decimal_reads_back(n: u64)
    ensures
        parsed_u64(decimal(n as nat)) == Some(n),
{
    lemma_decimal_digits(n as nat);
    let s = decimal(n as nat);
    assert(is_digit(s[0]));
    assert(unsigned_part(s) == s);
}

/// Two numbers with the same decimal form are the same number.
pub proof fn decimal_is_injective(a: nat, b: nat)
    requires
        decimal(a) == decimal(b),
    ensures
        a == b,
{
    lemma_decimal_digits(a);
    lemma_decimal_digits(b);
}

/// A text is cut at the first of its separators, and nothing is lost by it. It
/// is left whole exactly where it holds none.
pub proof fn first_split_loses_nothing(s: Seq<char>, c: char)
    ensures
        first_split(s, c) is None <==> !s.contains(c),
        first_split(s, c) matches Some((head, tail)) ==> s == head + seq![c] + tail
            && !head.contains(c) && tail.len() < s.len(),
{
    s.index_of_first_ensures(c);
    if let Some((head, tail)) = first_split(s, c) {
        assert(s =~= head + seq![c] + tail);
        assert forall|k: int| 0 <= k < head.len() implies #[trigger] head[k] != c by {
            assert(head[k] == s[k]);
        }
    }
}

/// Two texts with a separator between them are cut there, if the first of them
/// holds none.
pub proof fn joined_texts_are_cut_at_the_separator(head: Seq<char>, c: char, tail: Seq<char>)
    requires
        !head.contains(c),
    ensures
        first_split(head + seq![c] + tail, c) == Some((head, tail)),
{
    let s = head + seq![c] + tail;
    s.index_of_first_ensures(c);
    assert(s[head.len() as int] == c);
    assert(s.contains(c));
    let i = s.index_of_first(c)->0;
    if i < head.len() {
        assert(head[i] == s[i]);
        assert(head.contains(c));
    }
    assert(i == head.len());
    assert(s.take(i) =~= head);
    assert(s.skip(i + 1) =~= tail);
}

/// The first piece of a text is what stands before its first separator, and the
/// others are the pieces of what stands after it.
pub proof fn segments_by_first_split(s: Seq<char>, c: char)
    ensures
        segments(s, c).len() >= 1,
        match first_split(s, c) {
            Some((head, tail)) => segments(s, c) == seq![head] + segments(tail, c) && segments(
                tail,
                c,
            ).len() >= 1,
            None => segments(s, c) == seq![s],
        },
{
    first_split_loses_nothing(s, c);
    if let Some((head, tail)) = first_split(s, c) {
        first_split_loses_nothing(tail, c);
    }
}

/// The pieces of two texts with a separator between them are the pieces of the
/// first and then those of the second.
pub proof fn segments_of_joined_texts(a: Seq<char>, c: char, b: Seq<char>)
    ensures
        segments(a + seq![c] + b, c) == segments(a, c) + segments(b, c),
    decreases a.len(),
{
    let whole = a + seq![c] + b;
    first_split_loses_nothing(a, c);
    segments_by_first_split(a, c);
    segments_by_first_split(whole, c);
    match first_split(a, c) {
        None => {
            joined_texts_are_cut_at_the_separator(a, c, b);
        },
        Some((head, tail)) => {
            segments_of_joined_texts(tail, c, b);
            assert(whole =~= head + seq![c] + (tail + seq![c] + b));
            joined_texts_are_cut_at_the_separator(head, c, tail + seq![c] + b);
            assert(seq![head] + (segments(tail, c) + segments(b, c)) =~= (seq![head] + segments(
                tail,
                c,
            )) + segments(b, c));
        },
    }
}

/// A text is its trimmed form and a run of the trimmed character, and the trimmed
/// form does not end with it.
pub proof fn only_the_run_at_the_end_is_trimmed(s: Seq<char>, c: char)
    ensures
        trimmed_end(s, c).is_prefix_of(s),
        forall|i: int| trimmed_end(s, c).len() <= i < s.len() ==> #[trigger] s[i] == c,
        trimmed_end(s, c).len() > 0 ==> trimmed_end(s, c).last() != c,
    decreases s.len(),
{
    if s.len() > 0 && s.last() == c {
        let init = s.drop_last();
        only_the_run_at_the_end_is_trimmed(init, c);
        let t = trimmed_end(s, c);
        assert(t =~= s.take(t.len() as int)) by {
            assert(t =~= init.take(t.len() as int));
        }
        assert forall|i: int| t.len() <= i < s.len() implies #[trigger] s[i] == c by {
            if i < init.len() {
                assert(s[i] == init[i]);
            }
        }
    } else {
        assert(s =~= s.take(s.len() as int));
    }
}

/// Upper-case ASCII letters become lower-case ones, and all other characters
/// stay as they are, each in its place.
pub proof fn only_ascii_letters_are_lowered(s: Seq<char>, i: int)
    requires
        0 <= i < s.len(),
    ensures
        lowered(s).len() == s.len(),
        'A' <= s[i] && s[i] <= 'Z' ==> lowered(s)[i] as int == s[i] as int + 32,
        !('A' <= s[i] && s[i] <= 'Z') ==> lowered(s)[i] == s[i],
{
}

/// A part is found wherever it stands.
pub proof fn parts_are_found_wherever_they_stand(
    before: Seq<char>,
    part: Seq<char>,
    after: Seq<char>,
)
    ensures
        has_part(before + part + after, part),
{
    let s = before + part + after;
    assert(s.subrange(before.len() as int, (before.len() + part.len()) as int) =~= part);
    assert(part_at(s, part, before.len() as int));
}

/// A text that has a part is that part with something before and after it.
pub proof fn found_parts_stand_somewhere(s: Seq<char>, part: Seq<char>) -> (r: (
    Seq<char>,
    Seq<char>,
))
    requires
        has_part(s, part),
    ensures
        s == r.0 + part + r.1,
{
    let i = choose|i: int| part_at(s, part, i);
    let r = (s.take(i), s.skip(i + part.len()));
    assert(s =~= r.0 + part + r.1);
    r
}

/// A decimal numeral ends with its last digit, before which stands that of the
/// rest. One digit is written as itself.
pub proof fn decimals_are_written_digit_by_digit(n: nat, d: nat)
    requires
        d < 10,
    ensures
        decimal(d) == seq![(('0' as nat) + d) as char],
        n > 0 ==> decimal(10 * n + d) == decimal(n).push((('0' as nat) + d) as char),
{
    if n > 0 {
        assert((10 * n + d) / 10 == n && (10 * n + d) % 10 == d) by (nonlinear_arith)
            requires
                d < 10,
        ;
    }
}

/// A negative number is written with a minus sign before its amount.
pub proof fn negative_numbers_have_a_minus_sign(n: int)
    requires
        n > 0,
    ensures
        signed_decimal(-n) == seq!['-'] + decimal(n as nat),
        signed_decimal(n) == decimal(n as nat),
        signed_decimal(0) == seq!['0'],
{
}

/// One leading plus sign is passed over; a text with any other character than a
/// digit, or without a digit, is no number.
pub proof fn numbers_are_digits_after_an_optional_plus(s: Seq<char>, i: int)
    ensures
        s.len() > 0 && s[0] != '+' ==> parsed_u64(seq!['+'] + s) == parsed_u64(s),
        parsed_u64(seq!['+']) is None,
        parsed_u64(Seq::empty()) is None,
        0 <= i < s.len() && !('0' <= s[i] && s[i] <= '9') && (i > 0 || s[0] != '+') ==> parsed_u64(s)
            is None,
{
    assert((seq!['+'] + s).skip(1) =~= s);
    assert(seq!['+'].skip(1) =~= Seq::empty());
    if 0 <= i < s.len() && !('0' <= s[i] && s[i] <= '9') && (i > 0 || s[0] != '+') {
        let digits = unsigned_part(s);
        if s[0] == '+' {
            assert(digits[i - 1] == s[i]);
            assert(!is_digit(digits[i - 1]));
        } else {
            assert(!is_digit(digits[i]));
        }
    }
}

/// One more digit makes ten times the number and that digit, as long as it fits.
pub proof fn numbers_are_read_digit_by_digit(s: Seq<char>, n: u64, d: nat)
    requires
        parsed_u64(s) == Some(n),
        d < 10,
    ensures
        parsed_u64(s.push((('0' as nat) + d) as char)) == (if 10 * n + d <= u64::MAX {
            Some((10 * n + d) as u64)
        } else {
            None
        }),
{
    let c = (('0' as nat) + d) as char;
    let t = s.push(c);
    let digits = unsigned_part(s);
    assert(c as nat == 48 + d);
    assert(unsigned_part(t) =~= digits.push(c));
    assert(digits.push(c).drop_last() =~= digits);
    assert(all_digits(digits.push(c)));
}

} // verus!
