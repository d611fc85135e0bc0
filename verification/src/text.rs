//! Text normalisers: trimming, splitting at a pattern, joining, replacing and
//! reading unsigned decimal numbers.
//!
//! Every function is stated over the sequence of characters of its input.

use vstd::prelude::*;

verus! {

/// Whether `c` is white space: a character with the Unicode property
/// White_Space.
pub open spec fn is_whitespace(c: char) -> bool {
    let code = c as u32;
    ||| 0x09 <= code <= 0x0D
    ||| code == 0x20
    ||| code == 0x85
    ||| code == 0xA0
    ||| code == 0x1680
    ||| 0x2000 <= code <= 0x200A
    ||| code == 0x2028
    ||| code == 0x2029
    ||| code == 0x202F
    ||| code == 0x205F
    ||| code == 0x3000
}

/// The number of white-space characters at the start of `s`.
pub open spec fn leading_space(s: Seq<char>) -> nat
    decreases s.len(),
{
    if s.len() > 0 && is_whitespace(s[0]) {
        1 + leading_space(s.drop_first())
    } else {
        0
    }
}

/// The number of white-space characters at the end of `s`.
pub open spec fn trailing_space(s: Seq<char>) -> nat
    decreases s.len(),
{
    if s.len() > 0 && is_whitespace(s.last()) {
        1 + trailing_space(s.drop_last())
    } else {
        0
    }
}

/// `s` without its leading white space.
pub open spec fn trimmed_start(s: Seq<char>) -> Seq<char>
    decreases s.len(),
{
    if s.len() > 0 && is_whitespace(s[0]) {
        trimmed_start(s.drop_first())
    } else {
        s
    }
}

/// `s` without its trailing white space.
pub open spec fn trimmed_end(s: Seq<char>) -> Seq<char>
    decreases s.len(),
{
    if s.len() > 0 && is_whitespace(s.last()) {
        trimmed_end(s.drop_last())
    } else {
        s
    }
}

/// `s` without leading and trailing white space.
pub open spec fn trimmed(s: Seq<char>) -> Seq<char> {
    trimmed_end(trimmed_start(s))
}

/// `pat` stands in `s` at position `i`.
pub open spec fn occurs_at(s: Seq<char>, pat: Seq<char>, i: int) -> bool {
    0 <= i && i + pat.len() <= s.len() && s.subrange(i, i + pat.len()) == pat
}

/// The first position from `i` on at which `pat` occurs in `s`; the length of
/// `s` where there is none.
pub open spec fn first_occurrence(s: Seq<char>, pat: Seq<char>, i: int) -> int
    decreases s.len() - i,
{
    if i < 0 || i >= s.len() {
        s.len() as int
    } else if occurs_at(s, pat, i) {
        i
    } else {
        first_occurrence(s, pat, i + 1)
    }
}

/// The pieces of `s` from `start` on, where the text before `i` is known to
/// belong to the first of them: `s` is read from left to right, and every
/// occurrence of `pat` met on the way ends a piece and is skipped.
pub open spec fn pieces_from(s: Seq<char>, pat: Seq<char>, start: int, i: int) -> Seq<Seq<char>>
    decreases s.len() - i,
{
    if pat.len() == 0 || i < start || start < 0 || i + pat.len() > s.len() {
        seq![s.subrange(start, s.len() as int)]
    } else if occurs_at(s, pat, i) {
        seq![s.subrange(start, i)] + pieces_from(s, pat, i + pat.len(), i + pat.len())
    } else {
        pieces_from(s, pat, start, i + 1)
    }
}

/// The pieces between the occurrences of `pat` in `s`, found from left to
/// right without overlap. With an empty `pat` the only piece is `s`.
pub open spec fn pieces(s: Seq<char>, pat: Seq<char>) -> Seq<Seq<char>> {
    pieces_from(s, pat, 0, 0)
}

/// `parts` written one after another with `sep` between neighbours.
pub open spec fn joined(parts: Seq<Seq<char>>, sep: Seq<char>) -> Seq<char>
    decreases parts.len(),
{
    if parts.len() == 0 {
        Seq::empty()
    } else if parts.len() == 1 {
        parts[0]
    } else {
        joined(parts.drop_last(), sep) + sep + parts.last()
    }
}

/// `s` with every occurrence of `from`, found from left to right without
/// overlap, replaced by `to`.
pub open spec fn replaced(s: Seq<char>, from: Seq<char>, to: Seq<char>) -> Seq<char> {
    joined(pieces(s, from), to)
}

/// `s` with every occurrence of `pat`, found from left to right without
/// overlap, taken out.
pub open spec fn removed(s: Seq<char>, pat: Seq<char>) -> Seq<char> {
    replaced(s, pat, Seq::empty())
}

/// The last piece of `s` split at `pat`: what follows the last occurrence.
pub open spec fn last_piece(s: Seq<char>, pat: Seq<char>) -> Seq<char> {
    pieces(s, pat).last()
}

/// The first piece of `s` split at `pat`: what precedes the first
/// occurrence.
pub open spec fn first_piece(s: Seq<char>, pat: Seq<char>) -> Seq<char> {
    pieces(s, pat)[0]
}

/// The piece of `s` split at `pat` with index `n`, counted from 0.
pub open spec fn nth_piece(s: Seq<char>, pat: Seq<char>, n: int) -> Option<Seq<char>> {
    if 0 <= n < pieces(s, pat).len() {
        Some(pieces(s, pat)[n])
    } else {
        None
    }
}

/// Whether `c` is one of the ten decimal digits.
pub open spec fn is_digit(c: char) -> bool {
    '0' <= c <= '9'
}

/// Every character of `s` is a decimal digit.
pub open spec fn all_digits(s: Seq<char>) -> bool {
    forall|i: int| 0 <= i < s.len() ==> is_digit(#[trigger] s[i])
}

/// The number that the decimal digits `s` write; 0 for no digits.
pub open spec fn decimal_value(s: Seq<char>) -> nat
    decreases s.len(),
{
    if s.len() == 0 {
        0
    } else {
        decimal_value(s.drop_last()) * 10 + (s.last() as nat - '0' as nat) as nat
    }
}

/// `s` without one leading plus sign.
pub open spec fn without_plus(s: Seq<char>) -> Seq<char> {
    if s.len() > 0 && s[0] == '+' {
        s.drop_first()
    } else {
        s
    }
}

/// The number that `s` writes: an optional plus sign, then one or more
/// decimal digits and nothing else, with a value of at most `max`.
pub open spec fn unsigned_number(s: Seq<char>, max: nat) -> Option<nat> {
    let digits = without_plus(s);
    if digits.len() > 0 && all_digits(digits) && decimal_value(digits) <= max {
        Some(decimal_value(digits))
    } else {
        None
    }
}

/// Decides whether a character is white space.
pub fn is_space(c: char) -> (yes: bool)
    ensures
        yes == is_whitespace(c),
{
    let code: u32 = c as u32;
    (0x09 <= code && code <= 0x0D) || code == 0x20 || code == 0x85 || code == 0xA0 || code
        == 0x1680 || (0x2000 <= code && code <= 0x200A) || code == 0x2028 || code == 0x2029
        || code == 0x202F || code == 0x205F || code == 0x3000
}

/// The characters of `s` as a vector.
pub fn chars_of(s: &str) -> (chars: Vec<char>)
    ensures
        chars@ == s@,
{
    let mut chars: Vec<char> = Vec::new();
    for c in it: s.chars()
        invariant
            it.seq() == s@,
            chars@ == it.seq().take(it.index() as int),
    {
        chars.push(c);
    }
    chars
}

/// Whether two texts hold the same characters.
pub fn same_text(a: &str, b: &str) -> (same: bool)
    ensures
        same == (a@ == b@),
{
    let left = chars_of(a);
    let right = chars_of(b);
    if left.len() != right.len() {
        return false;
    }
    let mut i: usize = 0;
    while i < left.len()
        invariant
            left@ == a@,
            right@ == b@,
            left.len() == right.len(),
            i <= left.len(),
            left@.take(i as int) == right@.take(i as int),
        decreases left.len() - i,
    {
        if left[i] != right[i] {
            return false;
        }
        i += 1;
    }
    assert(left@ == left@.take(left.len() as int));
    assert(right@ == right@.take(right.len() as int));
    true
}

/// Removes leading and trailing white space.
pub fn trim(s: &str) -> (out: String)
    ensures
        out@ == trimmed(s@),
{
    let chars = chars_of(s);
    let n: usize = chars.len();
    let mut lo: usize = 0;
    assert(chars@.subrange(0, n as int) == chars@);
    while lo < n && is_space(chars[lo])
        invariant
            n == chars.len(),
            lo <= n,
            trimmed_start(chars@) == trimmed_start(chars@.subrange(lo as int, n as int)),
        decreases n - lo,
    {
        assert(chars@.subrange(lo as int, n as int).drop_first() == chars@.subrange(
            lo + 1,
            n as int,
        ));
        lo += 1;
    }
    let mut hi: usize = n;
    while hi > lo && is_space(chars[hi - 1])
        invariant
            n == chars.len(),
            lo <= hi <= n,
            trimmed(chars@) == trimmed_end(chars@.subrange(lo as int, hi as int)),
        decreases hi - lo,
    {
        assert(chars@.subrange(lo as int, hi as int).drop_last() == chars@.subrange(
            lo as int,
            hi - 1,
        ));
        hi -= 1;
    }
    String::from_str(s.substring_char(lo, hi))
}

/// Whether `pat` stands in `chars` at position `i`.
fn occurs_here(chars: &Vec<char>, pat: &Vec<char>, i: usize) -> (found: bool)
    requires
        i + pat.len() <= chars.len(),
    ensures
        found == occurs_at(chars@, pat@, i as int),
{
    let m: usize = pat.len();
    let mut j: usize = 0;
    while j < m
        invariant
            m == pat.len(),
            j <= m,
            i + m <= chars.len(),
            chars@.subrange(i as int, i + j) == pat@.take(j as int),
        decreases m - j,
    {
        if chars[i + j] != pat[j] {
            return false;
        }
        j += 1;
    }
    assert(pat@.take(m as int) == pat@);
    true
}

/// Splits `s` at the occurrences of `pat`, found from left to right without
/// overlap. There is always at least one piece.
pub fn split(s: &str, pat: &str) -> (parts: Vec<String>)
    ensures
        parts.deep_view() == pieces(s@, pat@),
        parts.len() >= 1,
{
    let chars = chars_of(s);
    let pattern = chars_of(pat);
    let n: usize = chars.len();
    let m: usize = pattern.len();
    let mut parts: Vec<String> = Vec::new();
    let mut start: usize = 0;
    let mut i: usize = 0;
    while m > 0 && m <= n - i
        invariant
            chars@ == s@,
            pattern@ == pat@,
            n == chars.len(),
            m == pattern.len(),
            start <= i <= n,
            pieces(s@, pat@) == parts.deep_view() + pieces_from(s@, pat@, start as int, i as int),
        decreases n - i,
    {
        if occurs_here(&chars, &pattern, i) {
            parts.push(String::from_str(s.substring_char(start, i)));
            i += m;
            start = i;
        } else {
            i += 1;
        }
    }
    parts.push(String::from_str(s.substring_char(start, n)));
    parts
}

/// Writes `parts` one after another with `sep` between neighbours.
pub fn join(parts: &Vec<String>, sep: &str) -> (out: String)
    ensures
        out@ == joined(parts.deep_view(), sep@),
{
    let mut out = String::new();
    let n: usize = parts.len();
    let mut i: usize = 0;
    while i < n
        invariant
            n == parts.len(),
            i <= n,
            out@ == joined(parts.deep_view().take(i as int), sep@),
        decreases n - i,
    {
        let ghost prefix = parts.deep_view().take(i + 1);
        assert(prefix.drop_last() == parts.deep_view().take(i as int));
        if i > 0 {
            out.append(sep);
        }
        out.append(parts[i].as_str());
        i += 1;
    }
    assert(parts.deep_view().take(n as int) == parts.deep_view());
    out
}

/// Replaces every occurrence of `from` in `s`, found from left to right
/// without overlap, by `to`.
pub fn replace(s: &str, from: &str, to: &str) -> (out: String)
    ensures
        out@ == replaced(s@, from@, to@),
{
    let parts = split(s, from);
    join(&parts, to)
}

/// Takes every occurrence of `pat`, found from left to right without
/// overlap, out of `s`.
pub fn remove(s: &str, pat: &str) -> (out: String)
    ensures
        out@ == removed(s@, pat@),
{
    let nothing = String::new();
    replace(s, pat, nothing.as_str())
}

/// The text behind the last occurrence of `pat` in `s`; all of `s` where
/// there is none.
pub fn last_of_split(s: &str, pat: &str) -> (out: String)
    ensures
        out@ == last_piece(s@, pat@),
{
    let parts = split(s, pat);
    let last: usize = parts.len() - 1;
    parts[last].clone()
}

/// The text before the first occurrence of `pat` in `s`; all of `s` where
/// there is none.
pub fn first_of_split(s: &str, pat: &str) -> (out: String)
    ensures
        out@ == first_piece(s@, pat@),
{
    let parts = split(s, pat);
    parts[0].clone()
}

/// The piece of `s` split at `pat` with index `n`, counted from 0.
pub fn nth_of_split(s: &str, pat: &str, n: usize) -> (out: Option<String>)
    ensures
        out.deep_view() == nth_piece(s@, pat@, n as int),
{
    let parts = split(s, pat);
    if n < parts.len() {
        Some(parts[n].clone())
    } else {
        None
    }
}

/// Whether `s` begins with `prefix`.
pub fn starts_with(s: &str, prefix: &str) -> (yes: bool)
    ensures
        yes == prefix@.is_prefix_of(s@),
{
    let chars = chars_of(s);
    let pattern = chars_of(prefix);
    if pattern.len() > chars.len() {
        return false;
    }
    occurs_here(&chars, &pattern, 0)
}

/// Reads an unsigned decimal number of at most `max`.
pub fn parse_unsigned(s: &str, max: u64) -> (value: Option<u64>)
    ensures
        match unsigned_number(s@, max as nat) {
            Some(n) => value == Some(n as u64),
            None => value is None,
        },
{
    let chars = chars_of(s);
    let n: usize = chars.len();
    let first: usize = if n > 0 && chars[0] == '+' {
        1
    } else {
        0
    };
    let ghost digits = without_plus(s@);
    if first == n {
        return None;
    }
    let mut acc: u64 = 0;
    let mut i: usize = first;
    while i < n
        invariant
            chars@ == s@,
            n == chars.len(),
            first <= i <= n,
            digits == without_plus(s@),
            digits == chars@.subrange(first as int, n as int),
            all_digits(digits.take(i - first)),
            acc == decimal_value(digits.take(i - first)),
            acc <= max,
        decreases n - i,
    {
        let c: char = chars[i];
        let ghost k = i - first;
        assert(digits.take(k + 1).drop_last() == digits.take(k));
        if c < '0' || c > '9' {
            assert(!is_digit(digits[k]));
            return None;
        }
        let d: u64 = (c as u32 - '0' as u32) as u64;
        let next: u128 = acc as u128 * 10 + d as u128;
        if next > max as u128 {
            proof {
                lemma_decimal_value_grows(digits, k + 1);
            }
            return None;
        }
        acc = next as u64;
        i += 1;
    }
    assert(digits.take(n - first) == digits);
    Some(acc)
}

/// Reads an unsigned decimal number that fits 64 bits.
pub fn parse_u64(s: &str) -> (value: Option<u64>)
    ensures
        match unsigned_number(s@, u64::MAX as nat) {
            Some(n) => value == Some(n as u64),
            None => value is None,
        },
{
    parse_unsigned(s, u64::MAX)
}

/// Reads an unsigned decimal number that fits 8 bits.
pub fn parse_u8(s: &str) -> (value: Option<u8>)
    ensures
        match unsigned_number(s@, u8::MAX as nat) {
            Some(n) => value == Some(n as u8),
            None => value is None,
        },
{
    match parse_unsigned(s, 255) {
        Some(n) => Some(n as u8),
        None => None,
    }
}

/// Trimming the start drops exactly the leading white space.
pub proof fn lemma_trimmed_start(s: Seq<char>)
    ensures
        leading_space(s) <= s.len(),
        trimmed_start(s) == s.subrange(leading_space(s) as int, s.len() as int),
        forall|k: int| 0 <= k < leading_space(s) ==> is_whitespace(s[k]),
        leading_space(s) < s.len() ==> !is_whitespace(s[leading_space(s) as int]),
    decreases s.len(),
{
    if s.len() > 0 && is_whitespace(s[0]) {
        let rest = s.drop_first();
        lemma_trimmed_start(rest);
        assert forall|k: int| 0 <= k < leading_space(s) implies is_whitespace(s[k]) by {
            if k > 0 {
                assert(s[k] == rest[k - 1]);
            }
        }
    }
}

/// Trimming the end drops exactly the trailing white space.
pub proof fn lemma_trimmed_end(s: Seq<char>)
    ensures
        trailing_space(s) <= s.len(),
        trimmed_end(s) == s.subrange(0, s.len() - trailing_space(s)),
        forall|k: int| s.len() - trailing_space(s) <= k < s.len() ==> is_whitespace(s[k]),
        trailing_space(s) < s.len() ==> !is_whitespace(s[s.len() - trailing_space(s) - 1]),
    decreases s.len(),
{
    if s.len() > 0 && is_whitespace(s.last()) {
        let rest = s.drop_last();
        lemma_trimmed_end(rest);
        assert forall|k: int| s.len() - trailing_space(s) <= k < s.len() implies is_whitespace(
            s[k],
        ) by {
            if k < s.len() - 1 {
                assert(s[k] == rest[k]);
            }
        }
    }
}

/// Trimming leaves a stretch of the text: white space before it, white
/// space behind it, and no white space at either end of it.
pub proof fn lemma_trimmed_is_inner_stretch(s: Seq<char>)
    ensures
        exists|lo: int, hi: int|
            0 <= lo <= hi <= s.len() && #[trigger] s.subrange(lo, hi) == trimmed(s) && (forall|
                k: int,
            |
                0 <= k < lo ==> is_whitespace(s[k])) && (forall|k: int|
                hi <= k < s.len() ==> is_whitespace(s[k])) && (lo < hi ==> !is_whitespace(s[lo])
                && !is_whitespace(s[hi - 1])),
{
    let lo = leading_space(s) as int;
    lemma_trimmed_start(s);
    let t = trimmed_start(s);
    lemma_trimmed_end(t);
    let hi = s.len() - trailing_space(t);
    assert(t.subrange(0, t.len() - trailing_space(t)) == s.subrange(lo, hi));
    assert forall|k: int| hi <= k < s.len() implies is_whitespace(s[k]) by {
        assert(s[k] == t[k - lo]);
    }
}

/// Trimming twice is trimming once.
pub proof fn lemma_trimmed_twice(s: Seq<char>)
    ensures
        trimmed(trimmed(s)) == trimmed(s),
{
    lemma_trimmed_is_inner_stretch(s);
}

/// What the first position of an occurrence says: `pat` occurs there and
/// nowhere before; the length of `s` says that it occurs nowhere.
pub proof fn lemma_first_occurrence(s: Seq<char>, pat: Seq<char>, i: int)
    requires
        0 <= i <= s.len(),
    ensures
        i <= first_occurrence(s, pat, i) <= s.len(),
        first_occurrence(s, pat, i) < s.len() ==> occurs_at(s, pat, first_occurrence(s, pat, i)),
        forall|k: int| i <= k < first_occurrence(s, pat, i) ==> !occurs_at(s, pat, k),
    decreases s.len() - i,
{
    if i < s.len() && !occurs_at(s, pat, i) {
        lemma_first_occurrence(s, pat, i + 1);
    }
}

/// Splitting always gives at least one piece.
pub proof fn lemma_pieces_not_empty(s: Seq<char>, pat: Seq<char>, start: int, i: int)
    ensures
        pieces_from(s, pat, start, i).len() >= 1,
    decreases s.len() - i,
{
    if pat.len() > 0 && 0 <= start <= i && i + pat.len() <= s.len() {
        if occurs_at(s, pat, i) {
            lemma_pieces_not_empty(s, pat, i + pat.len(), i + pat.len());
        } else {
            lemma_pieces_not_empty(s, pat, start, i + 1);
        }
    }
}

/// Positions at which `pat` does not occur can be passed over.
pub proof fn lemma_pieces_skip(s: Seq<char>, pat: Seq<char>, start: int, i: int, j: int)
    requires
        0 <= start <= i <= j <= s.len(),
        forall|k: int| i <= k < j ==> !occurs_at(s, pat, k),
    ensures
        pieces_from(s, pat, start, i) == pieces_from(s, pat, start, j),
    decreases j - i,
{
    if i < j && pat.len() > 0 && i + pat.len() <= s.len() {
        lemma_pieces_skip(s, pat, start, i + 1, j);
    }
}

/// The pieces behind position `k` are the pieces of the text behind `k`.
pub proof fn lemma_pieces_of_rest(s: Seq<char>, pat: Seq<char>, k: int, start: int, i: int)
    requires
        0 <= k <= start <= i <= s.len(),
    ensures
        pieces_from(s, pat, start, i) == pieces_from(
            s.subrange(k, s.len() as int),
            pat,
            start - k,
            i - k,
        ),
    decreases s.len() - i,
{
    let rest = s.subrange(k, s.len() as int);
    assert(s.subrange(start, s.len() as int) == rest.subrange(start - k, rest.len() as int));
    if pat.len() > 0 && i + pat.len() <= s.len() {
        assert(s.subrange(i, i + pat.len()) == rest.subrange(i - k, i - k + pat.len()));
        assert(s.subrange(start, i) == rest.subrange(start - k, i - k));
        if occurs_at(s, pat, i) {
            lemma_pieces_of_rest(s, pat, k, i + pat.len(), i + pat.len());
        } else {
            lemma_pieces_of_rest(s, pat, k, start, i + 1);
        }
    }
}

/// Joining with a piece in front puts the piece and the separator in front.
pub proof fn lemma_joined_in_front(first: Seq<char>, rest: Seq<Seq<char>>, sep: Seq<char>)
    requires
        rest.len() >= 1,
    ensures
        joined(seq![first] + rest, sep) == first + sep + joined(rest, sep),
    decreases rest.len(),
{
    let all = seq![first] + rest;
    assert(all.drop_last() == seq![first] + rest.drop_last());
    if rest.len() == 1 {
        assert(joined(seq![first], sep) == first);
    } else {
        lemma_joined_in_front(first, rest.drop_last(), sep);
    }
}

/// Text in which `from` does not occur is left as it is.
pub proof fn lemma_replaced_without_occurrence(s: Seq<char>, from: Seq<char>, to: Seq<char>)
    requires
        forall|k: int| 0 <= k < s.len() ==> !occurs_at(s, from, k),
    ensures
        pieces(s, from) == seq![s],
        replaced(s, from, to) == s,
{
    lemma_pieces_skip(s, from, 0, 0, s.len() as int);
    assert(s.subrange(0, s.len() as int) == s);
}

/// Where `from` first occurs at position `i`, the text before `i` is kept,
/// `to` follows, and the text behind the occurrence is replaced in turn.
pub proof fn lemma_replaced_at_first_occurrence(
    s: Seq<char>,
    from: Seq<char>,
    to: Seq<char>,
    i: int,
)
    requires
        from.len() > 0,
        occurs_at(s, from, i),
        forall|k: int| 0 <= k < i ==> !occurs_at(s, from, k),
    ensures
        replaced(s, from, to) == s.subrange(0, i) + to + replaced(
            s.subrange(i + from.len(), s.len() as int),
            from,
            to,
        ),
{
    let behind = i + from.len();
    let rest = s.subrange(behind, s.len() as int);
    lemma_pieces_skip(s, from, 0, 0, i);
    lemma_pieces_of_rest(s, from, behind, behind, behind);
    lemma_pieces_not_empty(rest, from, 0, 0);
    lemma_joined_in_front(s.subrange(0, i), pieces(rest, from), to);
}

/// Replacing a pattern by itself changes nothing.
pub proof fn lemma_replaced_by_itself(s: Seq<char>, pat: Seq<char>)
    ensures
        replaced(s, pat, pat) == s,
    decreases s.len(),
{
    if pat.len() > 0 {
        if exists|k: int| 0 <= k < s.len() && occurs_at(s, pat, k) {
            let i = first_occurrence(s, pat, 0);
            lemma_first_occurrence(s, pat, 0);
            lemma_replaced_at_first_occurrence(s, pat, pat, i);
            lemma_replaced_by_itself(s.subrange(i + pat.len(), s.len() as int), pat);
        } else {
            lemma_replaced_without_occurrence(s, pat, pat);
        }
    }
}

/// The value of a prefix of digits never exceeds the value of the whole.
pub proof fn lemma_decimal_value_grows(s: Seq<char>, k: int)
    requires
        0 <= k <= s.len(),
    ensures
        decimal_value(s.take(k)) <= decimal_value(s),
    decreases s.len() - k,
{
    if k == s.len() {
        assert(s.take(k) == s);
    } else {
        lemma_decimal_value_grows(s.drop_last(), k);
        assert(s.drop_last().take(k) == s.take(k));
    }
}

/// The first piece ends where `pat` first occurs; it is all of `s` where
/// `pat` occurs nowhere.
pub proof fn lemma_first_piece_ends_at_first_occurrence(s: Seq<char>, pat: Seq<char>)
    requires
        pat.len() > 0,
    ensures
        first_piece(s, pat) == s.subrange(0, first_occurrence(s, pat, 0)),
{
    lemma_first_occurrence(s, pat, 0);
    lemma_pieces_skip(s, pat, 0, 0, first_occurrence(s, pat, 0));
}

/// The last piece from a position on that lies before the last separator, or
/// at it, is what follows the last separator.
pub proof fn lemma_last_piece_from(s: Seq<char>, c: char, k: int, start: int, i: int)
    requires
        0 <= start <= i <= k < s.len(),
        s[k] == c,
        forall|j: int| k < j < s.len() ==> s[j] != c,
    ensures
        pieces_from(s, seq![c], start, i).last() == s.subrange(k + 1, s.len() as int),
    decreases s.len() - i,
{
    let pat = seq![c];
    assert(occurs_at(s, pat, i) <==> s[i] == c) by {
        if s[i] == c {
            assert(s.subrange(i, i + 1) == pat);
        } else {
            assert(s.subrange(i, i + 1)[0] != pat[0]);
        }
    }
    if s[i] == c {
        lemma_pieces_not_empty(s, pat, i + 1, i + 1);
        if i == k {
            assert forall|j: int| k + 1 <= j < s.len() implies !occurs_at(s, pat, j) by {
                if occurs_at(s, pat, j) {
                    assert(s.subrange(j, j + 1)[0] == pat[0]);
                }
            }
            lemma_pieces_skip(s, pat, k + 1, k + 1, s.len() as int);
        } else {
            lemma_last_piece_from(s, c, k, i + 1, i + 1);
        }
    } else {
        lemma_last_piece_from(s, c, k, start, i + 1);
    }
}

/// The last piece of a text split at a separator of one character is what
/// follows the last separator.
pub proof fn lemma_last_piece_follows_last_separator(s: Seq<char>, c: char, k: int)
    requires
        0 <= k < s.len(),
        s[k] == c,
        forall|j: int| k < j < s.len() ==> s[j] != c,
    ensures
        last_piece(s, seq![c]) == s.subrange(k + 1, s.len() as int),
{
    lemma_last_piece_from(s, c, k, 0, 0);
}

} // verus!
