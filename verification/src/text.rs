use vstd::prelude::*;

verus! {

/// Appends one character to a `String` (`String::push`).
/// Trusted: the new contents are the old ones followed by `c`.
#[verifier::external_body]
pub(crate) fn push_char(s: &mut String, c: char)
    ensures
        final(s)@ == old(s)@.push(c),
{
    s.push(c);
}

/// The characters of `s`, in order.
pub fn chars_of(s: &str) -> (r: Vec<char>)
    ensures
        r@ == s@,
{
    let mut v: Vec<char> = Vec::new();
    for c in it: s.chars()
        invariant
            v@ == it.seq().take(it.index() as int),
            it.seq() == s@,
    {
        v.push(c);
    }
    v
}

/// A `String` holding exactly the characters of `v`.
pub fn string_from_chars(v: &[char]) -> (r: String)
    ensures
        r@ == v@,
{
    let mut s = String::new();
    let mut i: usize = 0;
    while i < v.len()
        invariant
            i <= v@.len(),
            s@ == v@.take(i as int),
        decreases v@.len() - i,
    {
        push_char(&mut s, v[i]);
        proof {
            assert(v@.take(i + 1) == v@.take(i as int).push(v@[i as int]));
        }
        i = i + 1;
    }
    proof {
        assert(v@.take(v@.len() as int) == v@);
    }
    s
}

} // verus!

verus! {

/// The character of a decimal digit `d < 10`.
pub open spec fn digit_char(d: nat) -> char {
    ((d + 48) as u32) as char
}

/// Whether `c` is one of `'0'..='9'`.
pub open spec fn is_digit(c: char) -> bool {
    '0' <= c && c <= '9'
}

/// The value of the decimal digit `c`.
pub open spec fn digit_value(c: char) -> nat {
    ((c as u32) - 48) as nat
}

/// The decimal representation of `n`, without leading zeros (`"0"` for zero),
/// as `u64::to_string` writes it.
pub open spec fn decimal(n: nat) -> Seq<char>
    decreases n,
{
    if n < 10 {
        seq![digit_char(n)]
    } else {
        decimal(n / 10).push(digit_char(n % 10))
    }
}

/// Every character of `s` is a decimal digit.
pub open spec fn all_digits(s: Seq<char>) -> bool {
    forall|i: int| 0 <= i < s.len() ==> is_digit(#[trigger] s[i])
}

/// The number that the decimal digits `s` denote (leading zeros allowed).
pub open spec fn digits_value(s: Seq<char>) -> nat
    decreases s.len(),
{
    if s.len() == 0 {
        0
    } else {
        digits_value(s.drop_last()) * 10 + digit_value(s.last())
    }
}

/// What `str::parse::<u64>` gives: an optional leading `'+'`, then one or more
/// decimal digits whose value fits in a `u64`.
pub open spec fn parse_u64_spec(s: Seq<char>) -> Option<u64> {
    let d = if s.len() > 0 && s[0] == '+' { s.drop_first() } else { s };
    if d.len() > 0 && all_digits(d) && digits_value(d) <= u64::MAX {
        Some(digits_value(d) as u64)
    } else {
        None
    }
}

proof fn lemma_digits_value_prefix(s: Seq<char>, i: int)
    requires
        0 <= i <= s.len(),
    ensures
        digits_value(s.take(i)) <= digits_value(s),
    decreases s.len() - i,
{
    if i < s.len() {
        lemma_digits_value_prefix(s, i + 1);
        assert(s.take(i + 1).drop_last() == s.take(i));
    } else {
        assert(s.take(i) == s);
    }
}

/// The decimal text of `n` is made of digits and denotes `n`.
pub proof fn lemma_decimal_digits(n: nat)
    ensures
        decimal(n).len() > 0,
        all_digits(decimal(n)),
        digits_value(decimal(n)) == n,
        decimal(n)[0] != '+',
    decreases n,
{
    if n < 10 {
        assert(digits_value(decimal(n)) == digits_value(decimal(n).drop_last()) * 10 + digit_value(decimal(n).last()));
        assert(decimal(n).drop_last().len() == 0);
    } else {
        lemma_decimal_digits(n / 10);
        let p = decimal(n / 10);
        assert(decimal(n).drop_last() == p);
        assert forall|i: int| 0 <= i < decimal(n).len() implies is_digit(#[trigger] decimal(n)[i]) by {
            if i < p.len() {
                assert(decimal(n)[i] == p[i]);
            }
        }
        assert(decimal(n)[0] == p[0]);
    }
}

/// Parsing the decimal text of a `u64` gives it back.
pub proof fn lemma_parse_decimal_roundtrip(n: u64)
    ensures
        parse_u64_spec(decimal(n as nat)) == Some(n),
{
    lemma_decimal_digits(n as nat);
}

fn digits_of(n: u64) -> (r: Vec<char>)
    ensures
        r@ == decimal(n as nat),
    decreases n,
{
    if n < 10 {
        let c = ((n as u8) + 48u8) as char;
        assert(c == digit_char(n as nat)) by {
            assert(((n as u8) + 48u8) as u32 == (n + 48) as u32);
        }
        let mut v: Vec<char> = Vec::new();
        v.push(c);
        assert(v@ == seq![digit_char(n as nat)]);
        v
    } else {
        let mut v = digits_of(n / 10);
        let d = (n % 10) as u8;
        let c = (d + 48u8) as char;
        assert(c == digit_char((n % 10) as nat)) by {
            assert((d + 48u8) as u32 == ((n % 10) + 48) as u32);
        }
        v.push(c);
        v
    }
}

/// The decimal text of `n` (what `n.to_string()` gives).
pub fn u64_to_decimal(n: u64) -> (r: String)
    ensures
        r@ == decimal(n as nat),
{
    let v = digits_of(n);
    string_from_chars(v.as_slice())
}

/// `str::parse::<u64>`: an optional `'+'`, then decimal digits that fit in a `u64`.
pub fn parse_u64(s: &str) -> (r: Option<u64>)
    ensures
        r == parse_u64_spec(s@),
{
    let v = chars_of(s);
    let mut start: usize = 0;
    if v.len() > 0 && v[0] == '+' {
        start = 1;
    }
    let ghost d = if v@.len() > 0 && v@[0] == '+' { v@.drop_first() } else { v@ };
    assert(d == v@.skip(start as int));
    if start >= v.len() {
        return None;
    }
    let mut acc: u64 = 0;
    let mut i: usize = start;
    while i < v.len()
        invariant
            start <= i <= v@.len(),
            v@ == s@,
            d == (if s@.len() > 0 && s@[0] == '+' { s@.drop_first() } else { s@ }),
            d.len() > 0,
            d == v@.skip(start as int),
            all_digits(d.take(i - start)),
            acc as nat == digits_value(d.take(i - start)),
        decreases v@.len() - i,
    {
        let c = v[i];
        if !('0' <= c && c <= '9') {
            assert(d[i - start] == c);
            assert(!all_digits(d));
            return None;
        }
        let dv: u64 = ((c as u32) - 48) as u64;
        assert(d.take(i + 1 - start).drop_last() == d.take(i - start));
        assert(d.take(i + 1 - start).last() == c);
        if acc > (u64::MAX - dv) / 10 {
            proof {
                assert(acc * 10 + dv > u64::MAX) by (nonlinear_arith)
                    requires acc > (u64::MAX - dv) / 10, dv <= 9;
                lemma_digits_value_prefix(d, i + 1 - start);
            }
            return None;
        }
        assert(acc * 10 + dv <= u64::MAX) by (nonlinear_arith)
            requires acc <= (u64::MAX - dv) / 10, dv <= 9;
        acc = acc * 10 + dv;
        i = i + 1;
    }
    assert(d.take(i - start) == d);
    Some(acc)
}

} // verus!

verus! {

/// Appends `t` to `s` (`String::push_str`).
/// Trusted: the new contents are the old ones followed by those of `t`.
#[verifier::external_body]
pub(crate) fn push_str(s: &mut String, t: &str)
    ensures
        final(s)@ == old(s)@ + t@,
{
    s.push_str(t);
}

/// A new `String` holding `a` followed by `b`.
pub fn concat(a: &str, b: &str) -> (r: String)
    ensures
        r@ == a@ + b@,
{
    let mut s = String::new();
    push_str(&mut s, a);
    push_str(&mut s, b);
    assert(s@ == a@ + b@);
    s
}

/// A new `String` holding `a`, `b` and `c`, in that order.
pub fn concat3(a: &str, b: &str, c: &str) -> (r: String)
    ensures
        r@ == a@ + b@ + c@,
{
    let mut s = String::new();
    push_str(&mut s, a);
    push_str(&mut s, b);
    push_str(&mut s, c);
    assert(s@ == a@ + b@ + c@);
    s
}

/// `needle` occurs in `hay` as a contiguous run of characters.
pub open spec fn seq_contains(hay: Seq<char>, needle: Seq<char>) -> bool {
    exists|i: int| 0 <= i && i + needle.len() <= hay.len()
        && #[trigger] hay.subrange(i, i + needle.len()) == needle
}

/// `needle` occurs in `hay` at position `i`.
pub open spec fn occurs_at(hay: Seq<char>, needle: Seq<char>, i: int) -> bool {
    0 <= i && i + needle.len() <= hay.len() && hay.subrange(i, i + needle.len()) == needle
}

fn occurs_at_exec(hay: &Vec<char>, needle: &Vec<char>, i: usize) -> (r: bool)
    requires
        i + needle@.len() <= hay@.len(),
    ensures
        r == occurs_at(hay@, needle@, i as int),
{
    let hl: usize = hay.len();
    let mut j: usize = 0;
    while j < needle.len()
        invariant
            hl == hay@.len(),
            i + needle@.len() <= hay@.len(),
            j <= needle@.len(),
            forall|k: int| 0 <= k < j ==> hay@[i + k] == needle@[k],
        decreases needle@.len() - j,
    {
        assert(i + j < hay@.len());
        if hay[i + j] != needle[j] {
            assert(hay@.subrange(i as int, i + needle@.len())[j as int] != needle@[j as int]);
            return false;
        }
        j = j + 1;
    }
    assert(hay@.subrange(i as int, i + needle@.len()) =~= needle@);
    true
}

/// `str::contains` with a string pattern.
pub fn contains_str(hay: &str, needle: &str) -> (r: bool)
    ensures
        r == seq_contains(hay@, needle@),
{
    let h = chars_of(hay);
    let n = chars_of(needle);
    if n.len() > h.len() {
        return false;
    }
    if n.len() == 0 {
        assert(hay@.subrange(0, 0 + needle@.len() as int) =~= needle@);
        assert(occurs_at(hay@, needle@, 0));
        return true;
    }
    let count: usize = h.len() - n.len() + 1;
    for i in 0..count
        invariant
            h@ == hay@,
            n@ == needle@,
            count == h@.len() - n@.len() + 1,
            forall|k: int| 0 <= k < i ==> !occurs_at(hay@, needle@, k),
    {
        if occurs_at_exec(&h, &n, i) {
            return true;
        }
    }
    assert forall|k: int| 0 <= k && k + needle@.len() <= hay@.len()
        implies #[trigger] hay@.subrange(k, k + needle@.len()) != needle@ by {
        assert(!occurs_at(hay@, needle@, k));
    }
    false
}

/// `c` has the Unicode `White_Space` property, which `char::is_whitespace` tests.
pub open spec fn is_whitespace(c: char) -> bool {
    ||| ('\u{9}' <= c && c <= '\u{d}')
    ||| c == ' '
    ||| c == '\u{85}'
    ||| c == '\u{a0}'
    ||| c == '\u{1680}'
    ||| ('\u{2000}' <= c && c <= '\u{200a}')
    ||| c == '\u{2028}'
    ||| c == '\u{2029}'
    ||| c == '\u{202f}'
    ||| c == '\u{205f}'
    ||| c == '\u{3000}'
}

fn is_whitespace_exec(c: char) -> (r: bool)
    ensures
        r == is_whitespace(c),
{
    ('\u{9}' <= c && c <= '\u{d}') || c == ' ' || c == '\u{85}' || c == '\u{a0}' || c == '\u{1680}'
        || ('\u{2000}' <= c && c <= '\u{200a}') || c == '\u{2028}' || c == '\u{2029}'
        || c == '\u{202f}' || c == '\u{205f}' || c == '\u{3000}'
}

/// The number of leading characters of `s` for which `p` holds.
pub open spec fn lead_count(s: Seq<char>, p: spec_fn(char) -> bool) -> nat
    decreases s.len(),
{
    if s.len() > 0 && p(s[0]) {
        1 + lead_count(s.drop_first(), p)
    } else {
        0
    }
}

/// The number of trailing characters of `s` for which `p` holds.
pub open spec fn trail_count(s: Seq<char>, p: spec_fn(char) -> bool) -> nat
    decreases s.len(),
{
    if s.len() > 0 && p(s.last()) {
        1 + trail_count(s.drop_last(), p)
    } else {
        0
    }
}

/// `s` without the leading and trailing characters for which `p` holds
/// (`str::trim_matches` with a predicate).
pub open spec fn trim_by(s: Seq<char>, p: spec_fn(char) -> bool) -> Seq<char> {
    let front = s.skip(lead_count(s, p) as int);
    front.take(front.len() - trail_count(front, p))
}

/// `str::trim`: without leading and trailing white space.
pub open spec fn trim_spec(s: Seq<char>) -> Seq<char> {
    trim_by(s, |c: char| is_whitespace(c))
}

/// `str::trim_matches('"')`: without leading and trailing double quotes.
pub open spec fn trim_quotes_spec(s: Seq<char>) -> Seq<char> {
    trim_by(s, |c: char| c == '"')
}

/// When the first `i` characters satisfy `p` and the next does not (or there is
/// none), `i` characters are trimmed at the front.
pub proof fn lemma_lead_count(s: Seq<char>, p: spec_fn(char) -> bool, i: int)
    requires
        0 <= i <= s.len(),
        forall|k: int| 0 <= k < i ==> p(#[trigger] s[k]),
        i == s.len() || !p(s[i]),
    ensures
        lead_count(s, p) == i,
    decreases i,
{
    if i > 0 {
        lemma_lead_count(s.drop_first(), p, i - 1);
    }
}

/// When the characters from `j` on satisfy `p` and the one before does not (or
/// there is none), `s.len() - j` characters are trimmed at the back.
pub proof fn lemma_trail_count(s: Seq<char>, p: spec_fn(char) -> bool, j: int)
    requires
        0 <= j <= s.len(),
        forall|k: int| j <= k < s.len() ==> p(#[trigger] s[k]),
        j == 0 || !p(s[j - 1]),
    ensures
        trail_count(s, p) == s.len() - j,
    decreases s.len() - j,
{
    if j < s.len() {
        lemma_trail_count(s.drop_last(), p, j);
    }
}

} // verus!

verus! {

/// The characters `v[lo..hi]`.
pub fn slice_chars(v: &Vec<char>, lo: usize, hi: usize) -> (r: Vec<char>)
    requires
        lo <= hi <= v@.len(),
    ensures
        r@ == v@.subrange(lo as int, hi as int),
{
    let mut r: Vec<char> = Vec::new();
    let mut i: usize = lo;
    while i < hi
        invariant
            lo <= i <= hi <= v@.len(),
            r@ == v@.subrange(lo as int, i as int),
        decreases hi - i,
    {
        r.push(v[i]);
        assert(v@.subrange(lo as int, i + 1) == v@.subrange(lo as int, i as int).push(v@[i as int]));
        i = i + 1;
    }
    r
}

/// `str::trim` on a sequence of characters.
pub fn trim_chars(v: &Vec<char>) -> (r: Vec<char>)
    ensures
        r@ == trim_spec(v@),
{
    let ghost p = |c: char| is_whitespace(c);
    let mut lo: usize = 0;
    while lo < v.len() && is_whitespace_exec(v[lo])
        invariant
            lo <= v@.len(),
            p == (|c: char| is_whitespace(c)),
            forall|k: int| 0 <= k < lo ==> p(#[trigger] v@[k]),
        decreases v@.len() - lo,
    {
        lo = lo + 1;
    }
    proof {
        lemma_lead_count(v@, p, lo as int);
    }
    let ghost front = v@.skip(lo as int);
    let mut hi: usize = v.len();
    while hi > lo && is_whitespace_exec(v[hi - 1])
        invariant
            lo <= hi <= v@.len(),
            front == v@.skip(lo as int),
            p == (|c: char| is_whitespace(c)),
            forall|k: int| hi - lo <= k < front.len() ==> p(#[trigger] front[k]),
        decreases hi,
    {
        assert(front[hi - 1 - lo] == v@[hi - 1]);
        hi = hi - 1;
    }
    proof {
        if hi > lo {
            assert(front[hi - lo - 1] == v@[hi - 1]);
        }
        lemma_trail_count(front, p, hi - lo);
        assert(front.take(hi - lo) == v@.subrange(lo as int, hi as int));
    }
    slice_chars(v, lo, hi)
}

/// `str::trim_matches('"')` on a sequence of characters.
pub fn trim_quotes_chars(v: &Vec<char>) -> (r: Vec<char>)
    ensures
        r@ == trim_quotes_spec(v@),
{
    let ghost p = |c: char| c == '"';
    let mut lo: usize = 0;
    while lo < v.len() && v[lo] == '"'
        invariant
            lo <= v@.len(),
            p == (|c: char| c == '"'),
            forall|k: int| 0 <= k < lo ==> p(#[trigger] v@[k]),
        decreases v@.len() - lo,
    {
        lo = lo + 1;
    }
    proof {
        lemma_lead_count(v@, p, lo as int);
    }
    let ghost front = v@.skip(lo as int);
    let mut hi: usize = v.len();
    while hi > lo && v[hi - 1] == '"'
        invariant
            lo <= hi <= v@.len(),
            front == v@.skip(lo as int),
            p == (|c: char| c == '"'),
            forall|k: int| hi - lo <= k < front.len() ==> p(#[trigger] front[k]),
        decreases hi,
    {
        assert(front[hi - 1 - lo] == v@[hi - 1]);
        hi = hi - 1;
    }
    proof {
        if hi > lo {
            assert(front[hi - lo - 1] == v@[hi - 1]);
        }
        lemma_trail_count(front, p, hi - lo);
        assert(front.take(hi - lo) == v@.subrange(lo as int, hi as int));
    }
    slice_chars(v, lo, hi)
}

/// The position of the first `c` in `s`, or `s.len()` when there is none.
pub open spec fn first_pos(s: Seq<char>, c: char) -> nat
    decreases s.len(),
{
    if s.len() == 0 {
        0
    } else if s[0] == c {
        0
    } else {
        1 + first_pos(s.drop_first(), c)
    }
}

/// When none of the first `i` characters is `c` and the next is `c` (or there is
/// none), `c` first occurs at `i`.
pub proof fn lemma_first_pos(s: Seq<char>, c: char, i: int)
    requires
        0 <= i <= s.len(),
        forall|k: int| 0 <= k < i ==> #[trigger] s[k] != c,
        i == s.len() || s[i] == c,
    ensures
        first_pos(s, c) == i,
    decreases i,
{
    if i > 0 {
        lemma_first_pos(s.drop_first(), c, i - 1);
    }
}

/// The pieces of `s` between the separators `sep` (`str::split` with a `char`):
/// one piece more than there are separators.
pub open spec fn split_on(s: Seq<char>, sep: char) -> Seq<Seq<char>>
    decreases s.len(),
{
    let p = first_pos(s, sep);
    if p >= s.len() {
        seq![s]
    } else {
        seq![s.take(p as int)] + split_on(s.skip(p + 1 as int), sep)
    }
}

/// `s` begins with `prefix`.
pub open spec fn starts_with(s: Seq<char>, prefix: Seq<char>) -> bool {
    prefix.len() <= s.len() && s.take(prefix.len() as int) == prefix
}

pub fn starts_with_chars(s: &Vec<char>, prefix: &Vec<char>) -> (r: bool)
    ensures
        r == starts_with(s@, prefix@),
{
    if prefix.len() > s.len() {
        return false;
    }
    let mut i: usize = 0;
    while i < prefix.len()
        invariant
            prefix@.len() <= s@.len(),
            i <= prefix@.len(),
            forall|k: int| 0 <= k < i ==> s@[k] == prefix@[k],
        decreases prefix@.len() - i,
    {
        if s[i] != prefix[i] {
            assert(s@.take(prefix@.len() as int)[i as int] != prefix@[i as int]);
            return false;
        }
        i = i + 1;
    }
    assert(s@.take(prefix@.len() as int) =~= prefix@);
    true
}


/// The views of a list of strings.
pub open spec fn strings_view(v: Seq<String>) -> Seq<Seq<char>> {
    v.map_values(|s: String| s@)
}

/// `a` and `b` hold the same characters.
pub fn str_eq(a: &str, b: &str) -> (r: bool)
    ensures
        r == (a@ == b@),
{
    let x = chars_of(a);
    let y = chars_of(b);
    if x.len() != y.len() {
        return false;
    }
    let mut i: usize = 0;
    while i < x.len()
        invariant
            x@ == a@,
            y@ == b@,
            x@.len() == y@.len(),
            i <= x@.len(),
            forall|k: int| 0 <= k < i ==> x@[k] == y@[k],
        decreases x@.len() - i,
    {
        if x[i] != y[i] {
            return false;
        }
        i = i + 1;
    }
    assert(x@ =~= y@);
    true
}

/// Whether some string of `v` holds the same characters as `s`.
pub fn contains_string(v: &Vec<String>, s: &str) -> (r: bool)
    ensures
        r == strings_view(v@).contains(s@),
{
    let mut i: usize = 0;
    while i < v.len()
        invariant
            i <= v@.len(),
            forall|k: int| 0 <= k < i ==> v@[k]@ != s@,
        decreases v@.len() - i,
    {
        if str_eq(v[i].as_str(), s) {
            assert(strings_view(v@)[i as int] == s@);
            return true;
        }
        i = i + 1;
    }
    assert forall|k: int| 0 <= k < strings_view(v@).len() implies strings_view(v@)[k] != s@ by {
        assert(strings_view(v@)[k] == v@[k]@);
    }
    false
}


/// What `str::to_lowercase` gives for `s`.
pub uninterp spec fn lowercase_text(s: Seq<char>) -> Seq<char>;

/// Every character of `s` is ASCII.
pub open spec fn is_ascii_text(s: Seq<char>) -> bool {
    forall|i: int| 0 <= i < s.len() ==> (#[trigger] s[i] as u32) < 128
}

/// `c` with an upper-case ASCII letter turned into lower case.
pub open spec fn ascii_lower_char(c: char) -> char {
    if 'A' <= c && c <= 'Z' { ((c as u32) + 32) as char } else { c }
}

/// `s` with its upper-case ASCII letters turned into lower case.
pub open spec fn ascii_lower(s: Seq<char>) -> Seq<char> {
    s.map_values(|c: char| ascii_lower_char(c))
}

/// The lower-case form of a string (`str::to_lowercase`).
/// Trusted: the result is the name `lowercase_text` of `s`; on ASCII text it
/// turns `A`-`Z` into `a`-`z` and keeps every other character, as the Unicode
/// lower-case mapping does for ASCII; the mapping beyond ASCII is left unsaid.
#[verifier::external_body]
pub(crate) fn to_lowercase(s: &str) -> (r: String)
    ensures
        r@ == lowercase_text(s@),
        is_ascii_text(s@) ==> r@ == ascii_lower(s@),
{
    s.to_lowercase()
}

} // verus!
