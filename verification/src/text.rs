//! Character-level string helpers shared by the whole library.
//!
//! Strings are modelled by their view, a `Seq<char>`; every helper here states
//! its result over that view.
use vstd::prelude::*;

verus! {

// ---------------------------------------------------------------------------
// Unicode character classes and case mappings, as std computes them.
// ---------------------------------------------------------------------------

/// Whether `c` has the Unicode `White_Space` property, as `char::is_whitespace`
/// documents it: tab, line feed, vertical tab, form feed, carriage return,
/// space, next line, no-break space, ogham space mark, the spaces from en
/// quad to hair space, line and paragraph separators, narrow no-break space,
/// medium mathematical space and ideographic space.
pub open spec fn unicode_white_space(c: char) -> bool {
    let n = c as u32;
    ||| 0x09 <= n <= 0x0D
    ||| n == 0x20
    ||| n == 0x85
    ||| n == 0xA0
    ||| n == 0x1680
    ||| 0x2000 <= n <= 0x200A
    ||| n == 0x2028
    ||| n == 0x2029
    ||| n == 0x202F
    ||| n == 0x205F
    ||| n == 0x3000
}

/// Whether std classifies `c` as alphabetic (the Unicode `Alphabetic` property).
pub uninterp spec fn unicode_alphabetic(c: char) -> bool;

/// Whether std classifies `c` as numeric (the Unicode general categories
/// `Nd`, `Nl` and `No`).
pub uninterp spec fn unicode_numeric(c: char) -> bool;

/// `char::is_numeric`: the result is whether `c` is in the Unicode numeric
/// categories, which depends on `c` alone.
#[verifier::external_body]
pub(crate) fn char_is_numeric(c: char) -> (r: bool)
    ensures
        r == unicode_numeric(c),
{
    c.is_numeric()
}

/// The full Unicode upper-case mapping of a string, as `str::to_uppercase` computes it.
pub uninterp spec fn unicode_uppercase(s: Seq<char>) -> Seq<char>;

/// The full Unicode lower-case mapping of a string, as `str::to_lowercase` computes it.
pub uninterp spec fn unicode_lowercase(s: Seq<char>) -> Seq<char>;

/// Whether `c` is white space, as `char::is_whitespace` decides it.
pub(crate) fn char_is_whitespace(c: char) -> (r: bool)
    ensures
        r == unicode_white_space(c),
{
    let n = c as u32;
    (0x09 <= n && n <= 0x0D) || n == 0x20 || n == 0x85 || n == 0xA0 || n == 0x1680 || (0x2000 <= n && n <= 0x200A)
        || n == 0x2028 || n == 0x2029 || n == 0x202F || n == 0x205F || n == 0x3000
}

/// `char::is_alphabetic`: the result is the Unicode `Alphabetic` property of `c`,
/// which depends on `c` alone.
#[verifier::external_body]
pub(crate) fn char_is_alphabetic(c: char) -> (r: bool)
    ensures
        r == unicode_alphabetic(c),
{
    c.is_alphabetic()
}

/// `str::to_uppercase`: the result is the Unicode upper-case mapping of `s`, a
/// function of `s` alone; nothing more of the mapping is claimed.
#[verifier::external_body]
pub(crate) fn str_to_uppercase(s: &str) -> (r: String)
    ensures
        r@ == unicode_uppercase(s@),
{
    s.to_uppercase()
}

/// `str::to_lowercase`: the result is the Unicode lower-case mapping of `s`, a
/// function of `s` alone; nothing more of the mapping is claimed.
#[verifier::external_body]
pub(crate) fn str_to_lowercase(s: &str) -> (r: String)
    ensures
        r@ == unicode_lowercase(s@),
{
    s.to_lowercase()
}

/// `String::push`: appends one character at the end.
#[verifier::external_body]
pub(crate) fn push_char(s: &mut String, c: char)
    ensures
        final(s)@ == old(s)@.push(c),
{
    s.push(c);
}

// ---------------------------------------------------------------------------
// Specifications over character sequences.
// ---------------------------------------------------------------------------

/// `p` is a prefix of `s`.
pub open spec fn has_prefix(s: Seq<char>, p: Seq<char>) -> bool {
    p.len() <= s.len() && s.subrange(0, p.len() as int) == p
}

/// `p` is a suffix of `s`.
pub open spec fn has_suffix(s: Seq<char>, p: Seq<char>) -> bool {
    p.len() <= s.len() && s.subrange(s.len() - p.len(), s.len() as int) == p
}

/// `needle` occurs in `s` at position `i`.
pub open spec fn occurs_at(s: Seq<char>, needle: Seq<char>, i: int) -> bool {
    0 <= i && i + needle.len() <= s.len() && s.subrange(i, i + needle.len()) == needle
}

/// `needle` occurs somewhere in `s` (the empty sequence occurs everywhere).
pub open spec fn has_infix(s: Seq<char>, needle: Seq<char>) -> bool {
    exists|i: int| #[trigger] occurs_at(s, needle, i)
}

/// Index of the first occurrence of `c` in `s`, if any.
pub open spec fn first_index(s: Seq<char>, c: char) -> Option<int> {
    if s.contains(c) {
        Some(choose|i: int| 0 <= i < s.len() && s[i] == c && forall|j: int| 0 <= j < i ==> s[j] != c)
    } else {
        None
    }
}

/// Index of the last occurrence of `c` in `s`, if any.
pub open spec fn last_index(s: Seq<char>, c: char) -> Option<int> {
    if s.contains(c) {
        Some(choose|i: int| 0 <= i < s.len() && s[i] == c && forall|j: int| i < j < s.len() ==> s[j] != c)
    } else {
        None
    }
}

/// Number of leading characters of `s` that satisfy `p`.
pub open spec fn leading_count(s: Seq<char>, p: spec_fn(char) -> bool) -> nat
    decreases s.len(),
{
    if s.len() > 0 && p(s[0]) {
        1 + leading_count(s.drop_first(), p)
    } else {
        0
    }
}

/// Number of trailing characters of `s` that satisfy `p`.
pub open spec fn trailing_count(s: Seq<char>, p: spec_fn(char) -> bool) -> nat
    decreases s.len(),
{
    if s.len() > 0 && p(s.last()) {
        1 + trailing_count(s.drop_last(), p)
    } else {
        0
    }
}

/// `s` without its leading characters that satisfy `p` (`str::trim_start_matches`).
pub open spec fn trim_start_by(s: Seq<char>, p: spec_fn(char) -> bool) -> Seq<char> {
    s.subrange(leading_count(s, p) as int, s.len() as int)
}

/// `s` without its trailing characters that satisfy `p` (`str::trim_end_matches`).
pub open spec fn trim_end_by(s: Seq<char>, p: spec_fn(char) -> bool) -> Seq<char> {
    s.subrange(0, s.len() - trailing_count(s, p))
}

/// `s` without leading and trailing white space (`str::trim`).
pub open spec fn trimmed(s: Seq<char>) -> Seq<char> {
    trim_end_by(trim_start_by(s, white_space()), white_space())
}

/// The white-space predicate as a spec closure.
pub open spec fn white_space() -> spec_fn(char) -> bool {
    |c: char| unicode_white_space(c)
}

/// ASCII lower-case of one character (`char::to_ascii_lowercase`).
pub open spec fn ascii_lower_char(c: char) -> char {
    if 'A' <= c && c <= 'Z' {
        ((c as u32) + 32) as char
    } else {
        c
    }
}

/// ASCII lower-case of a string (`str::to_ascii_lowercase`).
pub open spec fn ascii_lower(s: Seq<char>) -> Seq<char> {
    s.map_values(|c: char| ascii_lower_char(c))
}

/// `c` is an ASCII decimal digit.
pub open spec fn is_digit(c: char) -> bool {
    '0' <= c && c <= '9'
}

/// The numeric value of an ASCII digit.
pub open spec fn digit_value(c: char) -> nat {
    ((c as u32) - ('0' as u32)) as nat
}

/// The value of a sequence of decimal digits, most significant first.
pub open spec fn digits_value(s: Seq<char>) -> nat
    decreases s.len(),
{
    if s.len() == 0 {
        0
    } else {
        digits_value(s.drop_last()) * 10 + digit_value(s.last())
    }
}

/// The digits part of a number written with an optional leading `+`.
pub open spec fn unsigned_body(s: Seq<char>) -> Seq<char> {
    if s.len() > 0 && s[0] == '+' {
        s.drop_first()
    } else {
        s
    }
}

/// `s` is a non-empty run of ASCII digits.
pub open spec fn all_digits(s: Seq<char>) -> bool {
    s.len() > 0 && forall|i: int| 0 <= i < s.len() ==> is_digit(#[trigger] s[i])
}

/// What `str::parse::<u32>` returns for `s`: an optional `+` followed by one or
/// more ASCII digits whose value fits in a `u32`; `None` for every other string.
pub open spec fn parsed_u32(s: Seq<char>) -> Option<u32> {
    if all_digits(unsigned_body(s)) && digits_value(unsigned_body(s)) <= u32::MAX {
        Some(digits_value(unsigned_body(s)) as u32)
    } else {
        None
    }
}

/// The decimal character of a digit value below ten.
pub open spec fn digit_char(d: nat) -> char {
    (('0' as u32) + d) as char
}

/// The decimal representation of `n`, without leading zeros (`u64::to_string`).
pub open spec fn decimal(n: nat) -> Seq<char>
    decreases n,
{
    if n < 10 {
        seq![digit_char(n)]
    } else {
        decimal(n / 10).push(digit_char(n % 10))
    }
}

// ---------------------------------------------------------------------------
// Executable helpers.
// ---------------------------------------------------------------------------

/// The characters of a string slice, in order.
pub fn chars_of(s: &str) -> (res: Vec<char>)
    ensures
        res@ == s@,
{
    let mut res: Vec<char> = Vec::new();
    for c in it: s.chars()
        invariant
            res@ == it.seq().take(it.index() as int),
    {
        res.push(c);
    }
    res
}

/// The string made of the characters `cs[from..to]`.
pub fn string_from_range(cs: &Vec<char>, from: usize, to: usize) -> (res: String)
    requires
        from <= to <= cs.len(),
    ensures
        res@ == cs@.subrange(from as int, to as int),
{
    let mut res = String::new();
    let mut i: usize = from;
    while i < to
        invariant
            from <= i <= to <= cs.len(),
            res@ == cs@.subrange(from as int, i as int),
        decreases to - i,
    {
        push_char(&mut res, cs[i]);
        assert(cs@.subrange(from as int, i + 1) == cs@.subrange(from as int, i as int).push(cs@[i as int]));
        i += 1;
    }
    res
}

/// The string made of all the characters of `cs`.
pub fn string_from_chars(cs: &Vec<char>) -> (res: String)
    ensures
        res@ == cs@,
{
    let res = string_from_range(cs, 0, cs.len());
    assert(cs@.subrange(0, cs@.len() as int) == cs@);
    res
}

/// A copy of a string slice as an owned string.
pub fn owned(s: &str) -> (res: String)
    ensures
        res@ == s@,
{
    let cs = chars_of(s);
    string_from_chars(&cs)
}

/// `s` followed by the characters of `t`.
pub fn append_str(s: String, t: &str) -> (r: String)
    ensures
        r@ == s@ + t@,
{
    let cs = chars_of(t);
    let mut r = s;
    let ghost start = r@;
    let mut i: usize = 0;
    while i < cs.len()
        invariant
            cs@ == t@,
            0 <= i <= cs.len(),
            r@ == start + t@.take(i as int),
        decreases cs.len() - i,
    {
        push_char(&mut r, cs[i]);
        assert(t@.take(i + 1) == t@.take(i as int).push(cs@[i as int]));
        i += 1;
    }
    assert(t@.take(cs.len() as int) == t@);
    r
}

/// Whether two character sequences are equal.
pub fn chars_equal(a: &Vec<char>, b: &Vec<char>) -> (r: bool)
    ensures
        r == (a@ == b@),
{
    if a.len() != b.len() {
        return false;
    }
    let mut i: usize = 0;
    while i < a.len()
        invariant
            a.len() == b.len(),
            0 <= i <= a.len(),
            forall|j: int| 0 <= j < i ==> a@[j] == b@[j],
        decreases a.len() - i,
    {
        if a[i] != b[i] {
            return false;
        }
        i += 1;
    }
    assert(a@ =~= b@);
    true
}

/// Whether two string slices hold the same characters.
pub fn str_equal(a: &str, b: &str) -> (r: bool)
    ensures
        r == (a@ == b@),
{
    let ca = chars_of(a);
    let cb = chars_of(b);
    chars_equal(&ca, &cb)
}

/// Whether `p` occurs in `s` at position `at`.
pub fn occurs_at_exec(s: &Vec<char>, p: &Vec<char>, at: usize) -> (r: bool)
    ensures
        r == occurs_at(s@, p@, at as int),
{
    if at > s.len() || p.len() > s.len() - at {
        return false;
    }
    let mut i: usize = 0;
    while i < p.len()
        invariant
            at + p.len() <= s.len(),
            0 <= i <= p.len(),
            forall|j: int| 0 <= j < i ==> s@[at + j] == p@[j],
        decreases p.len() - i,
    {
        if s[at + i] != p[i] {
            assert(s@.subrange(at as int, at + p.len())[i as int] != p@[i as int]);
            return false;
        }
        i += 1;
    }
    assert(s@.subrange(at as int, at + p.len()) =~= p@);
    true
}

/// Whether `p` is a prefix of `s` (`str::starts_with`).
pub fn starts_with_chars(s: &Vec<char>, p: &Vec<char>) -> (r: bool)
    ensures
        r == has_prefix(s@, p@),
{
    occurs_at_exec(s, p, 0)
}

/// Whether `p` is a suffix of `s` (`str::ends_with`).
pub fn ends_with_chars(s: &Vec<char>, p: &Vec<char>) -> (r: bool)
    ensures
        r == has_suffix(s@, p@),
{
    if p.len() > s.len() {
        return false;
    }
    occurs_at_exec(s, p, s.len() - p.len())
}

/// Whether `p` is a prefix of `s` (`str::starts_with`).
pub fn starts_with(s: &str, p: &str) -> (r: bool)
    ensures
        r == has_prefix(s@, p@),
{
    let cs = chars_of(s);
    let cp = chars_of(p);
    starts_with_chars(&cs, &cp)
}

/// Whether `p` is a suffix of `s` (`str::ends_with`).
pub fn ends_with(s: &str, p: &str) -> (r: bool)
    ensures
        r == has_suffix(s@, p@),
{
    let cs = chars_of(s);
    let cp = chars_of(p);
    ends_with_chars(&cs, &cp)
}

/// Whether `needle` occurs in `s` (`str::contains`).
pub fn contains_chars(s: &Vec<char>, needle: &Vec<char>) -> (r: bool)
    ensures
        r == has_infix(s@, needle@),
{
    if needle.len() > s.len() {
        assert forall|i: int| !occurs_at(s@, needle@, i) by {}
        return false;
    }
    let last = s.len() - needle.len();
    let mut i: usize = 0;
    loop
        invariant
            needle.len() <= s.len(),
            last == s.len() - needle.len(),
            0 <= i <= last,
            forall|j: int| 0 <= j < i ==> !occurs_at(s@, needle@, j),
        ensures
            forall|j: int| 0 <= j <= last ==> !occurs_at(s@, needle@, j),
        decreases last - i,
    {
        if occurs_at_exec(s, needle, i) {
            return true;
        }
        if i == last {
            break;
        }
        i += 1;
    }
    assert forall|j: int| !occurs_at(s@, needle@, j) by {
        if 0 <= j <= last {
        }
    }
    false
}

/// Whether `needle` occurs in `s` (`str::contains`).
pub fn contains(s: &str, needle: &str) -> (r: bool)
    ensures
        r == has_infix(s@, needle@),
{
    let cs = chars_of(s);
    let cn = chars_of(needle);
    contains_chars(&cs, &cn)
}

/// Index of the first occurrence of `c` (`str::find` counted in characters).
pub fn find_char(s: &Vec<char>, c: char) -> (r: Option<usize>)
    ensures
        r is Some <==> s@.contains(c),
        r matches Some(i) ==> i < s.len() && s@[i as int] == c && forall|j: int| 0 <= j < i ==> s@[j] != c,
        r matches Some(i) ==> first_index(s@, c) == Some(i as int),
        r is None ==> first_index(s@, c) is None,
{
    let mut i: usize = 0;
    while i < s.len()
        invariant
            0 <= i <= s.len(),
            forall|j: int| 0 <= j < i ==> s@[j] != c,
        decreases s.len() - i,
    {
        if s[i] == c {
            proof {
                let k = choose|k: int| 0 <= k < s@.len() && s@[k] == c && forall|j: int| 0 <= j < k ==> s@[j] != c;
                assert(k == i);
            }
            return Some(i);
        }
        i += 1;
    }
    None
}

/// Index of the last occurrence of `c` (`str::rfind` counted in characters).
pub fn rfind_char(s: &Vec<char>, c: char) -> (r: Option<usize>)
    ensures
        r is Some <==> s@.contains(c),
        r matches Some(i) ==> i < s.len() && s@[i as int] == c && forall|j: int| i < j < s.len() ==> s@[j] != c,
        r matches Some(i) ==> last_index(s@, c) == Some(i as int),
        r is None ==> last_index(s@, c) is None,
{
    let mut i: usize = s.len();
    while i > 0
        invariant
            0 <= i <= s.len(),
            forall|j: int| i <= j < s.len() ==> s@[j] != c,
        decreases i,
    {
        if s[i - 1] == c {
            proof {
                let k = choose|k: int| 0 <= k < s@.len() && s@[k] == c && forall|j: int| k < j < s@.len() ==> s@[j] != c;
                assert(k == i - 1);
            }
            return Some(i - 1);
        }
        i -= 1;
    }
    None
}

/// ASCII lower-case copy of a string (`str::to_ascii_lowercase`).
pub fn to_ascii_lowercase(s: &str) -> (res: String)
    ensures
        res@ == ascii_lower(s@),
{
    let cs = chars_of(s);
    let mut res = String::new();
    let mut i: usize = 0;
    while i < cs.len()
        invariant
            cs@ == s@,
            0 <= i <= cs.len(),
            res@ == ascii_lower(s@.take(i as int)),
        decreases cs.len() - i,
    {
        let c = cs[i];
        let l = if 'A' <= c && c <= 'Z' {
            ((c as u8) + 32) as char
        } else {
            c
        };
        push_char(&mut res, l);
        assert(ascii_lower(s@.take(i + 1)) =~= ascii_lower(s@.take(i as int)).push(ascii_lower_char(c)));
        i += 1;
    }
    assert(s@.take(cs.len() as int) =~= s@);
    res
}

// ---------------------------------------------------------------------------
// Trimming, decimal formatting and parsing.
// ---------------------------------------------------------------------------

proof fn lemma_leading_split(s: Seq<char>, p: spec_fn(char) -> bool, k: int)
    requires
        0 <= k <= s.len(),
        forall|j: int| 0 <= j < k ==> p(s[j]),
    ensures
        leading_count(s, p) == k + leading_count(s.subrange(k, s.len() as int), p),
    decreases k,
{
    if k == 0 {
        assert(s.subrange(0, s.len() as int) == s);
    } else {
        let t = s.drop_first();
        assert forall|j: int| 0 <= j < k - 1 implies p(t[j]) by {
            assert(t[j] == s[j + 1]);
        }
        lemma_leading_split(t, p, k - 1);
        assert(t.subrange(k - 1, t.len() as int) == s.subrange(k, s.len() as int));
    }
}

proof fn lemma_trailing_split(s: Seq<char>, p: spec_fn(char) -> bool, k: int)
    requires
        0 <= k <= s.len(),
        forall|j: int| k <= j < s.len() ==> p(s[j]),
    ensures
        trailing_count(s, p) == (s.len() - k) + trailing_count(s.subrange(0, k), p),
    decreases s.len() - k,
{
    if k == s.len() {
        assert(s.subrange(0, k) == s);
    } else {
        let t = s.drop_last();
        lemma_trailing_split(t, p, k);
        assert(t.subrange(0, k) == s.subrange(0, k));
    }
}

/// Index of the first character at or after `from` that is not white space.
fn skip_white_space_forward(cs: &Vec<char>, from: usize) -> (r: usize)
    requires
        from <= cs.len(),
    ensures
        from <= r <= cs.len(),
        forall|j: int| from <= j < r ==> unicode_white_space(#[trigger] cs@[j]),
        r < cs.len() ==> !unicode_white_space(cs@[r as int]),
{
    let mut i = from;
    while i < cs.len() && char_is_whitespace(cs[i])
        invariant
            from <= i <= cs.len(),
            forall|j: int| from <= j < i ==> unicode_white_space(#[trigger] cs@[j]),
        decreases cs.len() - i,
    {
        i += 1;
    }
    i
}

/// A copy of `s` without leading and trailing white space (`str::trim`).
pub fn trim(s: &str) -> (res: String)
    ensures
        res@ == trimmed(s@),
{
    let ghost ws = white_space();
    let cs = chars_of(s);
    let start = skip_white_space_forward(&cs, 0);
    proof {
        lemma_leading_split(s@, ws, start as int);
        let rest = s@.subrange(start as int, s@.len() as int);
        if rest.len() > 0 {
            assert(rest[0] == s@[start as int]);
        }
        assert(leading_count(rest, ws) == 0);
    }
    let mut end = cs.len();
    while end > start && char_is_whitespace(cs[end - 1])
        invariant
            start <= end <= cs.len(),
            cs@ == s@,
            forall|j: int| end <= j < cs.len() ==> unicode_white_space(#[trigger] cs@[j]),
        decreases end,
    {
        end -= 1;
    }
    proof {
        let t = s@.subrange(start as int, s@.len() as int);
        assert(trim_start_by(s@, ws) == t);
        let k = end - start;
        assert forall|j: int| k <= j < t.len() implies ws(t[j]) by {
            assert(t[j] == cs@[start + j]);
        }
        lemma_trailing_split(t, ws, k as int);
        let u = t.subrange(0, k as int);
        if u.len() > 0 {
            assert(u.last() == cs@[end - 1]);
        }
        assert(trailing_count(u, ws) == 0);
        assert(trim_end_by(t, ws) == u);
        assert(u == cs@.subrange(start as int, end as int));
    }
    string_from_range(&cs, start, end)
}

/// Appends the decimal representation of `n` to `s`.
fn push_decimal(s: &mut String, n: u64)
    ensures
        final(s)@ == old(s)@ + decimal(n as nat),
    decreases n,
{
    if n >= 10 {
        push_decimal(s, n / 10);
    }
    let d = (n % 10) as u8;
    let c = (d + 48) as char;
    assert(c == digit_char((n % 10) as nat));
    push_char(s, c);
    proof {
        if n >= 10 {
            assert(decimal(n as nat) == decimal((n / 10) as nat).push(digit_char((n % 10) as nat)));
        } else {
            assert(decimal(n as nat) == seq![digit_char(n as nat)]);
        }
    }
}

/// The decimal representation of `n` (`u64::to_string`).
pub fn u64_to_string(n: u64) -> (res: String)
    ensures
        res@ == decimal(n as nat),
{
    let mut res = String::new();
    push_decimal(&mut res, n);
    assert(res@ == Seq::<char>::empty() + decimal(n as nat));
    res
}

proof fn lemma_digits_value_prefix(s: Seq<char>, k: int)
    requires
        0 <= k <= s.len(),
        forall|i: int| 0 <= i < s.len() ==> is_digit(#[trigger] s[i]),
    ensures
        digits_value(s) >= digits_value(s.take(k)),
    decreases s.len(),
{
    if k < s.len() {
        let t = s.drop_last();
        assert forall|i: int| 0 <= i < t.len() implies is_digit(#[trigger] t[i]) by {
            assert(t[i] == s[i]);
        }
        lemma_digits_value_prefix(t, k);
        assert(t.take(k) == s.take(k));
    } else {
        assert(s.take(k) == s);
    }
}

/// Parses an unsigned 32-bit decimal number the way `str::parse::<u32>` does.
pub fn parse_u32(s: &str) -> (r: Option<u32>)
    ensures
        r == parsed_u32(s@),
{
    let cs = chars_of(s);
    let start: usize = if cs.len() > 0 && cs[0] == '+' { 1 } else { 0 };
    let ghost body = unsigned_body(s@);
    assert(body == s@.subrange(start as int, s@.len() as int));
    if start == cs.len() {
        return None;
    }
    let mut acc: u64 = 0;
    let mut i: usize = start;
    while i < cs.len()
        invariant
            cs@ == s@,
            start <= i <= cs.len(),
            body == s@.subrange(start as int, s@.len() as int),
            body == unsigned_body(s@),
            acc <= u32::MAX,
            acc == digits_value(body.take(i - start)),
            forall|j: int| 0 <= j < i - start ==> is_digit(#[trigger] body[j]),
        decreases cs.len() - i,
    {
        let c = cs[i];
        if c < '0' || c > '9' {
            assert(!is_digit(body[i - start]));
            assert(!all_digits(body));
            return None;
        }
        let d = (c as u32 - 48) as u64;
        assert(body.take(i - start + 1).drop_last() == body.take(i - start));
        acc = acc * 10 + d;
        assert(acc == digits_value(body.take(i - start + 1)));
        i += 1;
        if acc > 4294967295 {
            proof {
                if all_digits(body) {
                    lemma_digits_value_prefix(body, i - start);
                    assert(digits_value(body) > u32::MAX);
                }
            }
            return None;
        }
    }
    assert(body.take(body.len() as int) == body);
    Some(acc as u32)
}

/// The character views of a sequence of strings.
pub open spec fn strings_view(v: Seq<String>) -> Seq<Seq<char>> {
    v.map_values(|s: String| s@)
}

/// Clones a vector of strings, keeping every character.
pub fn clone_strings(v: &Vec<String>) -> (res: Vec<String>)
    ensures
        strings_view(res@) == strings_view(v@),
{
    let mut res: Vec<String> = Vec::new();
    let mut i: usize = 0;
    while i < v.len()
        invariant
            0 <= i <= v.len(),
            strings_view(res@) == strings_view(v@.take(i as int)),
        decreases v.len() - i,
    {
        res.push(v[i].clone());
        assert(strings_view(v@.take(i + 1)) == strings_view(v@.take(i as int)).push(v@[i as int]@));
        assert(strings_view(res@) == strings_view(res@.drop_last()).push(res@.last()@));
        i += 1;
    }
    assert(v@.take(v.len() as int) == v@);
    res
}

/// Owned copies of string slices, in order.
pub fn owned_all(items: &[&str]) -> (res: Vec<String>)
    ensures
        res.deep_view() == items@.map_values(|s: &str| s@),
{
    let mut res: Vec<String> = Vec::new();
    let mut i: usize = 0;
    while i < items.len()
        invariant
            0 <= i <= items.len(),
            res.deep_view() == items@.take(i as int).map_values(|s: &str| s@),
        decreases items.len() - i,
    {
        let s = owned(items[i]);
        let ghost before = res.deep_view();
        res.push(s);
        assert(res.deep_view() =~= before.push(items@[i as int]@));
        assert(items@.take(i + 1).map_values(|s: &str| s@) =~= items@.take(i as int).map_values(|s: &str| s@).push(items@[i as int]@));
        i += 1;
    }
    assert(items@.take(items.len() as int) == items@);
    res
}

/// The final component of a path as `Path::file_name` computes it for the
/// target platform's path syntax; `None` when the path ends in `..` or has no
/// final component.
pub uninterp spec fn path_file_name(path: Seq<char>) -> Option<Seq<char>>;

/// `Path::file_name` of a path given as a string.
#[verifier::external_body]
pub(crate) fn file_name_of(path: &str) -> (r: Option<String>)
    ensures
        r.deep_view() == path_file_name(path@),
{
    std::path::Path::new(path).file_name().map(|n| n.to_string_lossy().into_owned())
}

/// What `Path::eq` returns for two paths that are not the same text: paths are
/// compared component by component, as the target platform parses them.
pub uninterp spec fn same_path_components(a: Seq<char>, b: Seq<char>) -> bool;

/// Path equality: equal texts are equal paths (`Path` is `Eq`, hence
/// reflexive); other texts are equal when their components are.
pub open spec fn path_equal(a: Seq<char>, b: Seq<char>) -> bool {
    a == b || same_path_components(a, b)
}

/// `Path::eq` on two paths given as strings.
#[verifier::external_body]
pub(crate) fn paths_equal(a: &str, b: &str) -> (r: bool)
    ensures
        r == (a@ == b@ || same_path_components(a@, b@)),
{
    std::path::Path::new(a) == std::path::Path::new(b)
}

/// What `Path::starts_with` returns: `base` is a prefix of `path` component
/// by component, as the target platform parses them.
pub uninterp spec fn path_has_base(path: Seq<char>, base: Seq<char>) -> bool;

/// `Path::starts_with` on two paths given as strings.
#[verifier::external_body]
pub(crate) fn path_starts_with(path: &str, base: &str) -> (r: bool)
    ensures
        r == path_has_base(path@, base@),
{
    std::path::Path::new(path).starts_with(base)
}

/// The path without its final component as `Path::parent` computes it for the
/// target platform's path syntax; `None` for a root or an empty path.
pub uninterp spec fn path_parent(path: Seq<char>) -> Option<Seq<char>>;

/// `Path::parent` of a path given as a string.
#[verifier::external_body]
pub(crate) fn parent_of(path: &str) -> (r: Option<String>)
    ensures
        r.deep_view() == path_parent(path@),
{
    std::path::Path::new(path).parent().map(|p| p.to_string_lossy().into_owned())
}

/// The extension of a file name as `Path::extension` defines it: the text after
/// the last `.`, unless there is no `.` or the only `.` starts the name.
pub open spec fn extension_of(file_name: Seq<char>) -> Option<Seq<char>> {
    match last_index(file_name, '.') {
        Some(i) => if i == 0 {
            None
        } else {
            Some(file_name.subrange(i + 1, file_name.len() as int))
        },
        None => None,
    }
}

/// The extension of the final component of a path (`Path::extension`).
pub open spec fn path_extension(path: Seq<char>) -> Option<Seq<char>> {
    match path_file_name(path) {
        Some(n) => extension_of(n),
        None => None,
    }
}

/// The extension of a file name, without the dot.
pub fn extension_of_name(file_name: &str) -> (r: Option<String>)
    ensures
        r.deep_view() == extension_of(file_name@),
{
    let cs = chars_of(file_name);
    match rfind_char(&cs, '.') {
        Some(i) => if i == 0 {
            None
        } else {
            Some(string_from_range(&cs, i + 1, cs.len()))
        },
        None => None,
    }
}

/// The extension of the final component of a path, without the dot.
pub fn path_extension_of(path: &str) -> (r: Option<String>)
    ensures
        r.deep_view() == path_extension(path@),
{
    match file_name_of(path) {
        Some(n) => extension_of_name(n.as_str()),
        None => None,
    }
}

/// Whether a list of strings holds `s`.
pub fn contains_string(v: &[String], s: &str) -> (r: bool)
    ensures
        r == v.deep_view().contains(s@),
{
    let mut i: usize = 0;
    while i < v.len()
        invariant
            0 <= i <= v.len(),
            forall|j: int| 0 <= j < i ==> v@[j]@ != s@,
        decreases v.len() - i,
    {
        if str_equal(v[i].as_str(), s) {
            assert(v.deep_view()[i as int] == s@);
            return true;
        }
        i += 1;
    }
    assert forall|j: int| 0 <= j < v.deep_view().len() implies v.deep_view()[j] != s@ by {
        assert(v.deep_view()[j] == v@[j]@);
    }
    false
}

/// The contents of an optional vector.
pub open spec fn opt_seq<T>(o: Option<Vec<T>>) -> Option<Seq<T>> {
    match o {
        Some(v) => Some(v@),
        None => None,
    }
}

/// What a filter keeps: exactly the elements of the sequence that the
/// predicate holds of.
pub proof fn lemma_filter_contains_iff<A>(s: Seq<A>, pred: spec_fn(A) -> bool, x: A)
    ensures
        s.filter(pred).contains(x) <==> (s.contains(x) && pred(x)),
    decreases s.len(),
{
    reveal(Seq::filter);
    if s.len() > 0 {
        let d = s.drop_last();
        lemma_filter_contains_iff(d, pred, x);
        let f = d.filter(pred);
        if s.filter(pred).contains(x) {
            let k = choose|k: int| 0 <= k < s.filter(pred).len() && s.filter(pred)[k] == x;
            if pred(s.last()) {
                assert(s.filter(pred) == f.push(s.last()));
                if k < f.len() {
                    assert(f[k] == x);
                    let j = choose|j: int| 0 <= j < d.len() && d[j] == x;
                    assert(s[j] == x);
                } else {
                    assert(s[s.len() - 1] == x);
                }
            } else {
                assert(f[k] == x);
                let j = choose|j: int| 0 <= j < d.len() && d[j] == x;
                assert(s[j] == x);
            }
        }
        if s.contains(x) && pred(x) {
            let j = choose|j: int| 0 <= j < s.len() && s[j] == x;
            if j < s.len() - 1 {
                assert(d[j] == x);
                let k = choose|k: int| 0 <= k < f.len() && f[k] == x;
                if pred(s.last()) {
                    assert(s.filter(pred)[k] == x);
                } else {
                    assert(s.filter(pred) == f);
                }
            } else {
                assert(s.filter(pred) == f.push(s.last()));
                assert(s.filter(pred)[f.len() as int] == x);
            }
        }
    }
}

} // verus!
