//! Scanning of the raw request text: locating separators, extracting the id
//! path segment, and parsing it as a decimal integer.

use vstd::prelude::*;
use vstd::string::*;

verus! {

/// ASCII whitespace. The tokens of a request line are separated by spaces
/// and ended by CRLF, all ASCII, so token boundaries are read against this
/// set alone, deliberately leaving the rest of Unicode's whitespace as
/// ordinary characters.
pub open spec fn is_ws(c: char) -> bool {
    c == ' ' || c == '\t' || c == '\n' || c == '\r' || c == '\u{b}' || c == '\u{c}'
}

/// Index of the first occurrence of `c` in `[from, to)`; `to` if none.
pub open spec fn find_in(s: Seq<char>, from: int, to: int, c: char) -> int
    decreases to - from when 0 <= from <= to <= s.len()
{
    if from >= to {
        to
    } else if s[from] == c {
        from
    } else {
        find_in(s, from + 1, to, c)
    }
}

/// Index of the first whitespace character in `[from, to)`; `to` if none.
pub open spec fn find_ws_from(s: Seq<char>, from: int, to: int) -> int
    decreases to - from when 0 <= from <= to <= s.len()
{
    if from >= to {
        to
    } else if is_ws(s[from]) {
        from
    } else {
        find_ws_from(s, from + 1, to)
    }
}

/// Index of the first non-whitespace character in `[from, to)`; `to` if none.
pub open spec fn find_non_ws_from(s: Seq<char>, from: int, to: int) -> int
    decreases to - from when 0 <= from <= to <= s.len()
{
    if from >= to {
        to
    } else if !is_ws(s[from]) {
        from
    } else {
        find_non_ws_from(s, from + 1, to)
    }
}

pub proof fn lemma_find_in_bounds(s: Seq<char>, from: int, to: int, c: char)
    requires
        0 <= from <= to <= s.len(),
    ensures
        from <= find_in(s, from, to, c) <= to,
    decreases to - from,
{
    if from < to && s[from] != c {
        lemma_find_in_bounds(s, from + 1, to, c);
    }
}

pub proof fn lemma_find_ws_from_bounds(s: Seq<char>, from: int, to: int)
    requires
        0 <= from <= to <= s.len(),
    ensures
        from <= find_ws_from(s, from, to) <= to,
    decreases to - from,
{
    if from < to && !is_ws(s[from]) {
        lemma_find_ws_from_bounds(s, from + 1, to);
    }
}

pub proof fn lemma_find_non_ws_from_bounds(s: Seq<char>, from: int, to: int)
    requires
        0 <= from <= to <= s.len(),
    ensures
        from <= find_non_ws_from(s, from, to) <= to,
    decreases to - from,
{
    if from < to && is_ws(s[from]) {
        lemma_find_non_ws_from_bounds(s, from + 1, to);
    }
}

/// The id token of a request: the segment at index 2 of the path split on
/// `/`, where the path is the second whitespace-delimited token of the
/// request text; empty when the path holds fewer than two `/` characters,
/// and empty when that segment is empty. The path ends at the first
/// whitespace after the method's space, so the token never reaches into the
/// protocol version or the headers.
pub open spec fn id_token_of(r: Seq<char>) -> Seq<char> {
    let len = r.len() as int;
    let m = find_ws_from(r, 0, len);
    let p_start = find_non_ws_from(r, m, len);
    let p_end = find_ws_from(r, p_start, len);
    let i1 = find_in(r, p_start, p_end, '/');
    if i1 == p_end {
        Seq::empty()
    } else {
        let i2 = find_in(r, i1 + 1, p_end, '/');
        if i2 == p_end {
            Seq::empty()
        } else {
            let i3 = find_in(r, i2 + 1, p_end, '/');
            r.subrange(i2 + 1, i3)
        }
    }
}

/// A decimal digit.
pub open spec fn is_digit(c: char) -> bool {
    48 <= c as u32 <= 57
}

/// The numeric value of a digit character.
pub open spec fn digit_val(c: char) -> int {
    c as u32 - 48
}

/// The value of a string of digits read in base 10.
pub open spec fn digits_val(s: Seq<char>) -> int
    decreases s.len(),
{
    if s.len() == 0 {
        0
    } else {
        digits_val(s.drop_last()) * 10 + digit_val(s.last())
    }
}

pub open spec fn all_digits(s: Seq<char>) -> bool {
    forall|i: int| 0 <= i < s.len() ==> is_digit(#[trigger] s[i])
}

/// What `str::parse::<i32>` accepts: an optional sign followed by at least
/// one digit, the signed value within the range of `i32`.
pub open spec fn i32_of_str(s: Seq<char>) -> Option<i32> {
    if s.len() == 0 {
        None
    } else {
        let neg = s[0] == '-';
        let ds = if s[0] == '-' || s[0] == '+' {
            s.drop_first()
        } else {
            s
        };
        if ds.len() == 0 || !all_digits(ds) {
            None
        } else {
            let v = if neg {
                -digits_val(ds)
            } else {
                digits_val(ds)
            };
            if -2147483648 <= v <= 2147483647 {
                Some(v as i32)
            } else {
                None
            }
        }
    }
}

/// `digits_val`, cut off above the range that matters for `i32`.
pub open spec fn clamped_val(v: int) -> int {
    if v > 0x1_0000_0000 {
        0x1_0000_0000
    } else {
        v
    }
}

pub proof fn lemma_digits_val_nonneg(s: Seq<char>)
    requires
        all_digits(s),
    ensures
        digits_val(s) >= 0,
    decreases s.len(),
{
    if s.len() > 0 {
        assert(all_digits(s.drop_last()));
        lemma_digits_val_nonneg(s.drop_last());
    }
}

/// Parses the whole string as a decimal `i32`, exactly as `str::parse::<i32>`
/// reads it: an optional `+` or `-`, then one or more digits, rejecting
/// overflow and anything else.
pub fn parse_i32(s: &str) -> (r: Option<i32>)
    ensures
        r == i32_of_str(s@),
{
    let n = s.unicode_len();
    if n == 0 {
        return None;
    }
    let c0 = s.get_char(0);
    let neg = c0 == '-';
    let start: usize = if c0 == '-' || c0 == '+' {
        1
    } else {
        0
    };
    if n == start {
        return None;
    }
    let ghost ds: Seq<char> = s@.subrange(start as int, n as int);
    proof {
        if start == 1 {
            assert(ds =~= s@.drop_first());
        } else {
            assert(ds =~= s@);
        }
    }
    let mut i: usize = start;
    let mut acc: u64 = 0;
    while i < n
        invariant
            start <= i <= n,
            n == s@.len(),
            start <= 1,
            (start == 1) == (s@[0] == '-' || s@[0] == '+'),
            neg == (s@[0] == '-'),
            ds == s@.subrange(start as int, n as int),
            all_digits(s@.subrange(start as int, i as int)),
            acc == clamped_val(digits_val(s@.subrange(start as int, i as int))),
            acc <= 0x1_0000_0000,
        decreases n - i,
    {
        let c = s.get_char(i);
        let d = c as u32;
        if d < 48 || d > 57 {
            proof {
                assert(ds[i - start] == s@[i as int]);
                assert(!is_digit(ds[i - start]));
                assert(!all_digits(ds));
                if start == 1 {
                    assert(ds =~= s@.drop_first());
                } else {
                    assert(ds =~= s@);
                }
            }
            return None;
        }
        let ghost pre = s@.subrange(start as int, i as int);
        let ghost post = s@.subrange(start as int, i + 1 as int);
        proof {
            assert(post.drop_last() =~= pre);
            assert(post.last() == s@[i as int]);
            lemma_digits_val_nonneg(pre);
        }
        let dv = (d - 48) as u64;
        let t = acc * 10 + dv;
        acc = if t > 0x1_0000_0000 {
            0x1_0000_0000
        } else {
            t
        };
        i += 1;
    }
    proof {
        assert(s@.subrange(start as int, i as int) == ds);
        lemma_digits_val_nonneg(ds);
    }
    if !neg {
        if acc <= 2147483647 {
            Some(acc as i32)
        } else {
            None
        }
    } else {
        if acc <= 2147483648 {
            let v64: i64 = -(acc as i64);
            Some(v64 as i32)
        } else {
            None
        }
    }
}

fn find_char_in(s: &str, from: usize, to: usize, c: char) -> (r: usize)
    requires
        from <= to <= s@.len(),
    ensures
        r == find_in(s@, from as int, to as int, c),
{
    let mut i: usize = from;
    while i < to
        invariant
            from <= i <= to <= s@.len(),
            find_in(s@, from as int, to as int, c) == find_in(s@, i as int, to as int, c),
        decreases to - i,
    {
        if s.get_char(i) == c {
            return i;
        }
        i += 1;
    }
    i
}

fn find_ws(s: &str, from: usize, to: usize) -> (r: usize)
    requires
        from <= to <= s@.len(),
    ensures
        r == find_ws_from(s@, from as int, to as int),
{
    let mut i: usize = from;
    while i < to
        invariant
            from <= i <= to <= s@.len(),
            find_ws_from(s@, from as int, to as int) == find_ws_from(s@, i as int, to as int),
        decreases to - i,
    {
        let c = s.get_char(i);
        if c == ' ' || c == '\t' || c == '\n' || c == '\r' || c == '\u{b}' || c == '\u{c}' {
            return i;
        }
        i += 1;
    }
    i
}

fn find_non_ws(s: &str, from: usize, to: usize) -> (r: usize)
    requires
        from <= to <= s@.len(),
    ensures
        r == find_non_ws_from(s@, from as int, to as int),
{
    let mut i: usize = from;
    while i < to
        invariant
            from <= i <= to <= s@.len(),
            find_non_ws_from(s@, from as int, to as int) == find_non_ws_from(s@, i as int, to as int),
        decreases to - i,
    {
        let c = s.get_char(i);
        if !(c == ' ' || c == '\t' || c == '\n' || c == '\r' || c == '\u{b}' || c == '\u{c}') {
            return i;
        }
        i += 1;
    }
    i
}

/// The id token of the request URL: the segment at index 2 of the path
/// split on `/`, the path being the second whitespace-delimited token of
/// the request text; empty when the path has no such segment.
pub fn get_id<'a>(request: &'a str) -> (r: &'a str)
    ensures
        r@ == id_token_of(request@),
{
    let n = request.unicode_len();
    let m = find_ws(request, 0, n);
    proof {
        lemma_find_ws_from_bounds(request@, 0, n as int);
    }
    let p_start = find_non_ws(request, m, n);
    proof {
        lemma_find_non_ws_from_bounds(request@, m as int, n as int);
    }
    let p_end = find_ws(request, p_start, n);
    proof {
        lemma_find_ws_from_bounds(request@, p_start as int, n as int);
    }
    let i1 = find_char_in(request, p_start, p_end, '/');
    proof {
        lemma_find_in_bounds(request@, p_start as int, p_end as int, '/');
    }
    if i1 == p_end {
        let e = request.substring_char(0, 0);
        proof {
            assert(e@ =~= Seq::<char>::empty());
        }
        return e;
    }
    let i2 = find_char_in(request, i1 + 1, p_end, '/');
    proof {
        lemma_find_in_bounds(request@, i1 + 1 as int, p_end as int, '/');
    }
    if i2 == p_end {
        let e = request.substring_char(0, 0);
        proof {
            assert(e@ =~= Seq::<char>::empty());
        }
        return e;
    }
    let i3 = find_char_in(request, i2 + 1, p_end, '/');
    proof {
        lemma_find_in_bounds(request@, i2 + 1 as int, p_end as int, '/');
    }
    request.substring_char(i2 + 1, i3)
}

} // verus!
