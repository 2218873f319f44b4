//! Splitting text into lines, white-space separated fields and separated
//! pieces, and parsing 64-bit decimal numbers.
//!
//! Each splitter is specified by a left-to-right scan over the characters: a
//! state made of the pieces completed so far and the piece being read.
use vstd::prelude::*;
use crate::text::{
    chars_of, string_from_chars, strings_view, unicode_white_space, char_is_whitespace,
    is_digit, digits_value, unsigned_body, all_digits, decimal, digit_char, digit_value,
};

verus! {

/// A line without the carriage return that ends it, if any.
pub open spec fn strip_cr(line: Seq<char>) -> Seq<char> {
    if line.len() > 0 && line.last() == '\r' {
        line.drop_last()
    } else {
        line
    }
}

/// Scan state of `str::lines` after reading `s`: the completed lines and the
/// line being read.
pub open spec fn line_scan(s: Seq<char>) -> (Seq<Seq<char>>, Seq<char>)
    decreases s.len(),
{
    if s.len() == 0 {
        (Seq::empty(), Seq::empty())
    } else {
        let (done, cur) = line_scan(s.drop_last());
        if s.last() == '\n' {
            (done.push(strip_cr(cur)), Seq::empty())
        } else {
            (done, cur.push(s.last()))
        }
    }
}

/// The lines of `s` as `str::lines` yields them: split at `\n`, a `\r` just
/// before it removed, and no empty last line after a final `\n`.
pub open spec fn text_lines(s: Seq<char>) -> Seq<Seq<char>> {
    let (done, cur) = line_scan(s);
    if cur.len() == 0 {
        done
    } else {
        done.push(cur)
    }
}

/// Scan state of `str::split_whitespace` after reading `s`.
pub open spec fn field_scan(s: Seq<char>) -> (Seq<Seq<char>>, Seq<char>)
    decreases s.len(),
{
    if s.len() == 0 {
        (Seq::empty(), Seq::empty())
    } else {
        let (done, cur) = field_scan(s.drop_last());
        if unicode_white_space(s.last()) {
            if cur.len() == 0 {
                (done, cur)
            } else {
                (done.push(cur), Seq::empty())
            }
        } else {
            (done, cur.push(s.last()))
        }
    }
}

/// The maximal runs of non-white-space characters of `s`, in order
/// (`str::split_whitespace`).
pub open spec fn text_fields(s: Seq<char>) -> Seq<Seq<char>> {
    let (done, cur) = field_scan(s);
    if cur.len() == 0 {
        done
    } else {
        done.push(cur)
    }
}

/// Scan state of `str::split` on one character after reading `s`.
pub open spec fn piece_scan(s: Seq<char>, sep: char) -> (Seq<Seq<char>>, Seq<char>)
    decreases s.len(),
{
    if s.len() == 0 {
        (Seq::empty(), Seq::empty())
    } else {
        let (done, cur) = piece_scan(s.drop_last(), sep);
        if s.last() == sep {
            (done.push(cur), Seq::empty())
        } else {
            (done, cur.push(s.last()))
        }
    }
}

/// The pieces of `s` between occurrences of `sep` (`str::split` with a
/// character): always one more piece than there are separators.
pub open spec fn text_pieces(s: Seq<char>, sep: char) -> Seq<Seq<char>> {
    let (done, cur) = piece_scan(s, sep);
    done.push(cur)
}

/// The lines of a text (`str::lines`).
pub fn split_lines(s: &str) -> (res: Vec<String>)
    ensures
        strings_view(res@) == text_lines(s@),
{
    let cs = chars_of(s);
    let mut done: Vec<String> = Vec::new();
    let mut cur: Vec<char> = Vec::new();
    let mut i: usize = 0;
    while i < cs.len()
        invariant
            cs@ == s@,
            0 <= i <= cs.len(),
            (strings_view(done@), cur@) == line_scan(s@.take(i as int)),
        decreases cs.len() - i,
    {
        let c = cs[i];
        assert(s@.take(i + 1).drop_last() == s@.take(i as int));
        if c == '\n' {
            if cur.len() > 0 && cur[cur.len() - 1] == '\r' {
                cur.pop();
            }
            let line = string_from_chars(&cur);
            done.push(line);
            assert(strings_view(done@) == strings_view(done@.drop_last()).push(done@.last()@));
            cur = Vec::new();
        } else {
            cur.push(c);
        }
        i += 1;
    }
    assert(s@.take(cs.len() as int) == s@);
    if cur.len() > 0 {
        let line = string_from_chars(&cur);
        done.push(line);
        assert(strings_view(done@) == strings_view(done@.drop_last()).push(done@.last()@));
    }
    done
}

/// The white-space separated fields of a text (`str::split_whitespace`).
pub fn split_whitespace(s: &str) -> (res: Vec<String>)
    ensures
        strings_view(res@) == text_fields(s@),
{
    let cs = chars_of(s);
    let mut done: Vec<String> = Vec::new();
    let mut cur: Vec<char> = Vec::new();
    let mut i: usize = 0;
    while i < cs.len()
        invariant
            cs@ == s@,
            0 <= i <= cs.len(),
            (strings_view(done@), cur@) == field_scan(s@.take(i as int)),
        decreases cs.len() - i,
    {
        let c = cs[i];
        assert(s@.take(i + 1).drop_last() == s@.take(i as int));
        if char_is_whitespace(c) {
            if cur.len() > 0 {
                let field = string_from_chars(&cur);
                done.push(field);
                assert(strings_view(done@) == strings_view(done@.drop_last()).push(done@.last()@));
                cur = Vec::new();
            }
        } else {
            cur.push(c);
        }
        i += 1;
    }
    assert(s@.take(cs.len() as int) == s@);
    if cur.len() > 0 {
        let field = string_from_chars(&cur);
        done.push(field);
        assert(strings_view(done@) == strings_view(done@.drop_last()).push(done@.last()@));
    }
    done
}

/// The pieces of a text between occurrences of `sep` (`str::split`).
pub fn split_on_char(s: &str, sep: char) -> (res: Vec<String>)
    ensures
        strings_view(res@) == text_pieces(s@, sep),
        res.len() >= 1,
{
    let cs = chars_of(s);
    let mut done: Vec<String> = Vec::new();
    let mut cur: Vec<char> = Vec::new();
    let mut i: usize = 0;
    while i < cs.len()
        invariant
            cs@ == s@,
            0 <= i <= cs.len(),
            (strings_view(done@), cur@) == piece_scan(s@.take(i as int), sep),
        decreases cs.len() - i,
    {
        let c = cs[i];
        assert(s@.take(i + 1).drop_last() == s@.take(i as int));
        if c == sep {
            let piece = string_from_chars(&cur);
            done.push(piece);
            assert(strings_view(done@) == strings_view(done@.drop_last()).push(done@.last()@));
            cur = Vec::new();
        } else {
            cur.push(c);
        }
        i += 1;
    }
    assert(s@.take(cs.len() as int) == s@);
    let piece = string_from_chars(&cur);
    done.push(piece);
    assert(strings_view(done@) == strings_view(done@.drop_last()).push(done@.last()@));
    done
}

/// What `str::parse::<u64>` returns for `s`: an optional `+` followed by one or
/// more ASCII digits whose value fits in a `u64`; `None` for every other string.
pub open spec fn parsed_u64(s: Seq<char>) -> Option<u64> {
    if all_digits(unsigned_body(s)) && digits_value(unsigned_body(s)) <= u64::MAX {
        Some(digits_value(unsigned_body(s)) as u64)
    } else {
        None
    }
}

proof fn lemma_digits_value_grows(s: Seq<char>, k: int)
    requires
        0 <= k <= s.len(),
        forall|i: int| 0 <= i < s.len() ==> is_digit(#[trigger] s[i]),
    ensures
        digits_value(s) >= digits_value(s.take(k)),
    decreases s.len(),
{
    if k < s.len() {
        let t = s.drop_last();
        assert forall|i: int| 0 <= i < t.len() implies is_digit(#[trigger] t[i]) by {
            assert(t[i] == s[i]);
        }
        lemma_digits_value_grows(t, k);
        assert(t.take(k) == s.take(k));
    } else {
        assert(s.take(k) == s);
    }
}

/// Parses an unsigned 64-bit decimal number the way `str::parse::<u64>` does.
pub fn parse_u64(s: &str) -> (r: Option<u64>)
    ensures
        r == parsed_u64(s@),
{
    let cs = chars_of(s);
    let start: usize = if cs.len() > 0 && cs[0] == '+' { 1 } else { 0 };
    let ghost body = unsigned_body(s@);
    assert(body == s@.subrange(start as int, s@.len() as int));
    if start == cs.len() {
        return None;
    }
    let mut acc: u64 = 0;
    let mut i: usize = start;
    while i < cs.len()
        invariant
            cs@ == s@,
            start <= i <= cs.len(),
            body == s@.subrange(start as int, s@.len() as int),
            body == unsigned_body(s@),
            acc == digits_value(body.take(i - start)),
            forall|j: int| 0 <= j < i - start ==> is_digit(#[trigger] body[j]),
        decreases cs.len() - i,
    {
        let c = cs[i];
        if c < '0' || c > '9' {
            assert(!is_digit(body[i - start]));
            assert(!all_digits(body));
            return None;
        }
        let d = (c as u32 - 48) as u64;
        assert(body.take(i - start + 1).drop_last() == body.take(i - start));
        assert(digits_value(body.take(i - start + 1)) == acc * 10 + d);
        if acc > 1844674407370955161 || (acc == 1844674407370955161 && d > 5) {
            proof {
                assert(acc * 10 + d > u64::MAX);
                if all_digits(body) {
                    lemma_digits_value_grows(body, i - start + 1);
                }
            }
            return None;
        }
        acc = acc * 10 + d;
        i += 1;
    }
    assert(body.take(body.len() as int) == body);
    Some(acc)
}

/// What `str::parse::<usize>` returns for `s`.
pub open spec fn parsed_usize(s: Seq<char>) -> Option<usize> {
    if all_digits(unsigned_body(s)) && digits_value(unsigned_body(s)) <= usize::MAX {
        Some(digits_value(unsigned_body(s)) as usize)
    } else {
        None
    }
}

/// Parses an unsigned machine-word decimal number the way
/// `str::parse::<usize>` does.
pub fn parse_usize(s: &str) -> (r: Option<usize>)
    ensures
        r == parsed_usize(s@),
{
    match parse_u64(s) {
        Some(n) => if n <= usize::MAX as u64 {
            Some(n as usize)
        } else {
            None
        },
        None => {
            proof {
                if all_digits(unsigned_body(s@)) && digits_value(unsigned_body(s@)) <= usize::MAX {
                    assert(usize::MAX <= u64::MAX);
                }
            }
            None
        },
    }
}

/// The pieces joined back together with `sep` between consecutive pieces.
pub open spec fn joined_with(pieces: Seq<Seq<char>>, sep: char) -> Seq<char>
    decreases pieces.len(),
{
    if pieces.len() == 0 {
        Seq::empty()
    } else if pieces.len() == 1 {
        pieces[0]
    } else {
        joined_with(pieces.drop_last(), sep) + seq![sep] + pieces.last()
    }
}

proof fn lemma_piece_scan_rejoins(s: Seq<char>, sep: char)
    ensures
        joined_with(piece_scan(s, sep).0.push(piece_scan(s, sep).1), sep) == s,
        forall|i: int| 0 <= i < piece_scan(s, sep).0.len() ==> !(#[trigger] piece_scan(s, sep).0[i]).contains(sep),
        !piece_scan(s, sep).1.contains(sep),
    decreases s.len(),
{
    if s.len() == 0 {
        let ps = Seq::<Seq<char>>::empty().push(Seq::<char>::empty());
        assert(joined_with(ps, sep) == ps[0]);
        assert(s =~= Seq::<char>::empty());
    } else {
        let t = s.drop_last();
        let x = s.last();
        lemma_piece_scan_rejoins(t, sep);
        let (done, cur) = piece_scan(t, sep);
        assert(t.push(x) =~= s);
        if x == sep {
            let d2 = done.push(cur);
            let ps = d2.push(Seq::<char>::empty());
            assert(ps.drop_last() == d2);
            assert(joined_with(ps, sep) == joined_with(d2, sep) + seq![sep] + Seq::<char>::empty());
            assert(joined_with(ps, sep) =~= s);
            assert forall|i: int| 0 <= i < d2.len() implies !(#[trigger] d2[i]).contains(sep) by {
                if i < done.len() {
                    assert(d2[i] == done[i]);
                }
            }
            assert(!Seq::<char>::empty().contains(sep));
        } else {
            let c2 = cur.push(x);
            let ps = done.push(c2);
            if done.len() == 0 {
                assert(joined_with(ps, sep) == c2);
                assert(joined_with(done.push(cur), sep) == cur);
                assert(c2 =~= s);
            } else {
                assert(ps.drop_last() == done);
                assert(done.push(cur).drop_last() == done);
                assert(joined_with(ps, sep) == joined_with(done, sep) + seq![sep] + c2);
                assert(joined_with(done.push(cur), sep) == joined_with(done, sep) + seq![sep] + cur);
                assert(joined_with(ps, sep) =~= s);
            }
            assert forall|k: int| 0 <= k < c2.len() implies c2[k] != sep by {
                if k < cur.len() {
                    assert(c2[k] == cur[k]);
                }
            }
        }
    }
}

/// Splitting a text at a character and joining the pieces back with that
/// character gives the text again, and no piece holds the character.
pub proof fn pieces_rejoin(s: Seq<char>, sep: char)
    ensures
        joined_with(text_pieces(s, sep), sep) == s,
        forall|i: int| 0 <= i < text_pieces(s, sep).len() ==> !(#[trigger] text_pieces(s, sep)[i]).contains(sep),
{
    lemma_piece_scan_rejoins(s, sep);
    let (done, cur) = piece_scan(s, sep);
    assert forall|i: int| 0 <= i < text_pieces(s, sep).len() implies !(#[trigger] text_pieces(s, sep)[i]).contains(sep) by {
        if i < done.len() {
            assert(text_pieces(s, sep)[i] == done[i]);
        }
    }
}

proof fn lemma_decimal_digits(n: nat)
    ensures
        decimal(n).len() > 0,
        forall|i: int| 0 <= i < decimal(n).len() ==> is_digit(#[trigger] decimal(n)[i]),
        digits_value(decimal(n)) == n,
    decreases n,
{
    if n < 10 {
        assert(decimal(n) == seq![digit_char(n)]);
        assert(digit_value(digit_char(n)) == n);
        let one = seq![digit_char(n)];
        assert(one.drop_last() =~= Seq::<char>::empty());
        assert(one.last() == digit_char(n));
        assert(digits_value(Seq::<char>::empty()) == 0);
        assert(digits_value(one) == digits_value(one.drop_last()) * 10 + digit_value(one.last()));
        assert(is_digit(one[0]));
    } else {
        lemma_decimal_digits(n / 10);
        let d = decimal(n / 10);
        let last = digit_char(n % 10);
        assert(decimal(n) == d.push(last));
        assert(d.push(last).drop_last() == d);
        assert(digit_value(last) == n % 10);
        assert forall|i: int| 0 <= i < d.push(last).len() implies is_digit(#[trigger] d.push(last)[i]) by {
            if i < d.len() {
                assert(d.push(last)[i] == d[i]);
            }
        }
        assert(digits_value(d.push(last)) == digits_value(d) * 10 + digit_value(last));
        assert((n / 10) * 10 + n % 10 == n);
    }
}

/// Parsing the decimal text of a number gives the number back.
pub proof fn decimal_parses_back(n: u64)
    ensures
        parsed_u64(decimal(n as nat)) == Some(n),
{
    lemma_decimal_digits(n as nat);
    let d = decimal(n as nat);
    assert(is_digit(d[0]));
    assert(unsigned_body(d) == d);
}

} // verus!
