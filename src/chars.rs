use vstd::prelude::*;

verus! {

/// Whether `c` has the Unicode `White_Space` property (as `char::is_whitespace`).
pub open spec fn is_ws(c: char) -> bool {
    c == ' ' || ('\t' <= c <= '\r') || c == '\u{85}' || c == '\u{a0}' || c == '\u{1680}' || (
    '\u{2000}' <= c <= '\u{200a}') || c == '\u{2028}' || c == '\u{2029}' || c == '\u{202f}' || c
        == '\u{205f}' || c == '\u{3000}'
}

/// `s` without leading whitespace.
pub open spec fn trim_start(s: Seq<char>) -> Seq<char>
    decreases s.len(),
{
    if s.len() > 0 && is_ws(s[0]) {
        trim_start(s.drop_first())
    } else {
        s
    }
}

/// `s` without trailing whitespace.
pub open spec fn trim_end(s: Seq<char>) -> Seq<char>
    decreases s.len(),
{
    if s.len() > 0 && is_ws(s.last()) {
        trim_end(s.drop_last())
    } else {
        s
    }
}

/// `s` without leading or trailing whitespace.
pub open spec fn trim(s: Seq<char>) -> Seq<char> {
    trim_end(trim_start(s))
}

/// What follows `p` in `s`, when `s` starts with `p`.
pub open spec fn strip_prefix(s: Seq<char>, p: Seq<char>) -> Option<Seq<char>> {
    if p.len() <= s.len() && s.subrange(0, p.len() as int) == p {
        Some(s.subrange(p.len() as int, s.len() as int))
    } else {
        None
    }
}

/// Index of the first `c` in `s` at `i` or after.
pub open spec fn find_char_from(s: Seq<char>, c: char, i: int) -> Option<int>
    decreases s.len() - i,
{
    if i < 0 || i >= s.len() {
        None
    } else if s[i] == c {
        Some(i)
    } else {
        find_char_from(s, c, i + 1)
    }
}

/// Index of the first whitespace in `s` at `i` or after.
pub open spec fn find_ws_from(s: Seq<char>, i: int) -> Option<int>
    decreases s.len() - i,
{
    if i < 0 || i >= s.len() {
        None
    } else if is_ws(s[i]) {
        Some(i)
    } else {
        find_ws_from(s, i + 1)
    }
}

/// Whether every character of `s` is an ASCII digit.
pub open spec fn all_digits(s: Seq<char>) -> bool {
    forall|i: int| 0 <= i < s.len() ==> '0' <= #[trigger] s[i] <= '9'
}

/// Value of a run of ASCII digits.
pub open spec fn digits_value(s: Seq<char>) -> int
    decreases s.len(),
{
    if s.len() == 0 {
        0
    } else {
        digits_value(s.drop_last()) * 10 + (s.last() as int - '0' as int)
    }
}

/// Unsigned number as `str::parse::<usize>` reads it: an optional `+`, then
/// one or more ASCII digits, with a value that fits.
pub open spec fn parse_usize(s: Seq<char>) -> Option<usize> {
    let d = if s.len() > 0 && s[0] == '+' {
        s.drop_first()
    } else {
        s
    };
    if d.len() > 0 && all_digits(d) && digits_value(d) <= usize::MAX {
        Some(digits_value(d) as usize)
    } else {
        None
    }
}

/// Signed number as `str::parse::<i32>` reads it: an optional sign, then
/// one or more ASCII digits, with a value that fits.
pub open spec fn parse_i32(s: Seq<char>) -> Option<i32> {
    let neg = s.len() > 0 && s[0] == '-';
    let d = if s.len() > 0 && (s[0] == '+' || s[0] == '-') {
        s.drop_first()
    } else {
        s
    };
    let v = if neg {
        -digits_value(d)
    } else {
        digits_value(d)
    };
    if d.len() > 0 && all_digits(d) && i32::MIN <= v <= i32::MAX {
        Some(v as i32)
    } else {
        None
    }
}

/// Whether `c` is whitespace (see `is_ws`).
pub fn is_whitespace(c: char) -> (r: bool)
    ensures
        r == is_ws(c),
{
    c == ' ' || ('\t' <= c && c <= '\r') || c == '\u{85}' || c == '\u{a0}' || c == '\u{1680}' || (
    '\u{2000}' <= c && c <= '\u{200a}') || c == '\u{2028}' || c == '\u{2029}' || c == '\u{202f}'
        || c == '\u{205f}' || c == '\u{3000}'
}

/// The characters of `s`.
pub fn chars_of(s: &str) -> (r: Vec<char>)
    ensures
        r@ == s@,
{
    let n = s.unicode_len();
    let mut r: Vec<char> = Vec::new();
    let mut i: usize = 0;
    while i < n
        invariant
            n == s@.len(),
            i <= n,
            r@ == s@.subrange(0, i as int),
        decreases n - i,
    {
        r.push(s.get_char(i));
        i = i + 1;
        assert(r@ =~= s@.subrange(0, i as int));
    }
    assert(r@ =~= s@);
    r
}

/// The text of the characters `s[i..j]`.
pub fn string_of(s: &str, i: usize, j: usize) -> (r: String)
    requires
        i <= j <= s@.len(),
    ensures
        r@ == s@.subrange(i as int, j as int),
{
    String::from_str(s.substring_char(i, j))
}

/// Start of `cs[i..j]` with leading whitespace skipped.
pub fn skip_ws(cs: &Vec<char>, i: usize, j: usize) -> (k: usize)
    requires
        i <= j <= cs@.len(),
    ensures
        i <= k <= j,
        cs@.subrange(k as int, j as int) == trim_start(cs@.subrange(i as int, j as int)),
{
    let mut k = i;
    while k < j && is_whitespace(cs[k])
        invariant
            i <= k <= j <= cs@.len(),
            trim_start(cs@.subrange(k as int, j as int)) == trim_start(
                cs@.subrange(i as int, j as int),
            ),
        decreases j - k,
    {
        assert(cs@.subrange(k as int, j as int).drop_first() =~= cs@.subrange(k + 1, j as int));
        k = k + 1;
    }
    k
}

/// End of `cs[i..j]` with trailing whitespace dropped.
pub fn skip_ws_back(cs: &Vec<char>, i: usize, j: usize) -> (k: usize)
    requires
        i <= j <= cs@.len(),
    ensures
        i <= k <= j,
        cs@.subrange(i as int, k as int) == trim_end(cs@.subrange(i as int, j as int)),
{
    let mut k = j;
    while k > i && is_whitespace(cs[k - 1])
        invariant
            i <= k <= j <= cs@.len(),
            trim_end(cs@.subrange(i as int, k as int)) == trim_end(
                cs@.subrange(i as int, j as int),
            ),
        decreases k - i,
    {
        assert(cs@.subrange(i as int, k as int).drop_last() =~= cs@.subrange(i as int, k - 1));
        k = k - 1;
    }
    k
}

/// Whether `cs[i..j]` starts with `p`.
pub fn starts_with(cs: &Vec<char>, i: usize, j: usize, p: &str) -> (r: bool)
    requires
        i <= j <= cs@.len(),
    ensures
        r == (strip_prefix(cs@.subrange(i as int, j as int), p@) is Some),
{
    let n = p.unicode_len();
    if n > j - i {
        return false;
    }
    let mut k: usize = 0;
    while k < n
        invariant
            n == p@.len(),
            n <= j - i,
            i <= j <= cs@.len(),
            k <= n,
            forall|m: int| 0 <= m < k ==> cs@[i + m] == p@[m],
        decreases n - k,
    {
        if cs[i + k] != p.get_char(k) {
            assert(cs@.subrange(i as int, j as int).subrange(0, n as int)[k as int] != p@[k as int]);
            return false;
        }
        k = k + 1;
    }
    assert(cs@.subrange(i as int, j as int).subrange(0, n as int) =~= p@);
    true
}

/// Index of the first `c` in `cs[i..j]`, relative to `i`.
pub fn find_char(cs: &Vec<char>, i: usize, j: usize, c: char) -> (r: Option<usize>)
    requires
        i <= j <= cs@.len(),
    ensures
        match r {
            Some(k) => i <= k < j && find_char_from(cs@.subrange(i as int, j as int), c, 0) == Some(
                k - i,
            ),
            None => find_char_from(cs@.subrange(i as int, j as int), c, 0) is None,
        },
{
    let ghost s = cs@.subrange(i as int, j as int);
    let mut k = i;
    while k < j
        invariant
            i <= k <= j <= cs@.len(),
            s == cs@.subrange(i as int, j as int),
            find_char_from(s, c, 0) == find_char_from(s, c, k - i),
        decreases j - k,
    {
        if cs[k] == c {
            assert(find_char_from(s, c, k - i) == Some(k - i));
            return Some(k);
        }
        k = k + 1;
    }
    None
}

/// Index of the first whitespace in `cs[i..j]`.
pub fn find_ws(cs: &Vec<char>, i: usize, j: usize) -> (r: Option<usize>)
    requires
        i <= j <= cs@.len(),
    ensures
        match r {
            Some(k) => i <= k < j && find_ws_from(cs@.subrange(i as int, j as int), 0) == Some(
                k - i,
            ),
            None => find_ws_from(cs@.subrange(i as int, j as int), 0) is None,
        },
{
    let ghost s = cs@.subrange(i as int, j as int);
    let mut k = i;
    while k < j
        invariant
            i <= k <= j <= cs@.len(),
            s == cs@.subrange(i as int, j as int),
            find_ws_from(s, 0) == find_ws_from(s, k - i),
        decreases j - k,
    {
        if is_whitespace(cs[k]) {
            assert(find_ws_from(s, k - i) == Some(k - i));
            return Some(k);
        }
        k = k + 1;
    }
    None
}

/// Value of the digits `cs[i..j]`, or `None` when a character is not a
/// digit, there is none, or the value exceeds `limit`.
fn digits_upto(cs: &Vec<char>, i: usize, j: usize, limit: u64) -> (r: Option<u64>)
    requires
        i <= j <= cs@.len(),
    ensures
        match r {
            Some(v) => j > i && all_digits(cs@.subrange(i as int, j as int)) && v as int
                == digits_value(cs@.subrange(i as int, j as int)) && v <= limit,
            None => !(j > i && all_digits(cs@.subrange(i as int, j as int)) && digits_value(
                cs@.subrange(i as int, j as int),
            ) <= limit),
        },
{
    if i == j {
        return None;
    }
    let mut k = i;
    while k < j
        invariant
            i <= k <= j <= cs@.len(),
            all_digits(cs@.subrange(i as int, k as int)),
        decreases j - k,
    {
        if !('0' <= cs[k] && cs[k] <= '9') {
            assert(cs@.subrange(i as int, j as int)[k - i] == cs@[k as int]);
            return None;
        }
        k = k + 1;
        assert(all_digits(cs@.subrange(i as int, k as int)));
    }
    let mut v: u64 = 0;
    let mut over = false;
    let mut k = i;
    while k < j
        invariant
            i <= k <= j <= cs@.len(),
            all_digits(cs@.subrange(i as int, j as int)),
            over ==> digits_value(cs@.subrange(i as int, k as int)) > limit,
            !over ==> v as int == digits_value(cs@.subrange(i as int, k as int)) && v <= limit,
        decreases j - k,
    {
        assert(cs@.subrange(i as int, k + 1).drop_last() =~= cs@.subrange(i as int, k as int));
        assert(cs@.subrange(i as int, j as int)[k - i] == cs@[k as int]);
        let d = (cs[k] as u32 - '0' as u32) as u64;
        if !over {
            if d > limit || v > (limit - d) / 10 {
                over = true;
            } else {
                v = v * 10 + d;
            }
        }
        k = k + 1;
    }
    if over {
        None
    } else {
        Some(v)
    }
}

/// Unsigned number in `cs[i..j]` (see `parse_usize`).
pub fn parse_usize_at(cs: &Vec<char>, i: usize, j: usize) -> (r: Option<usize>)
    requires
        i <= j <= cs@.len(),
    ensures
        r == parse_usize(cs@.subrange(i as int, j as int)),
{
    let ghost s = cs@.subrange(i as int, j as int);
    let start = if i < j && cs[i] == '+' {
        i + 1
    } else {
        i
    };
    assert(i < j && cs@[i as int] == '+' ==> s.drop_first() =~= cs@.subrange(start as int, j as int));
    assert(!(i < j && cs@[i as int] == '+') ==> s =~= cs@.subrange(start as int, j as int));
    match digits_upto(cs, start, j, usize::MAX as u64) {
        Some(v) => Some(v as usize),
        None => None,
    }
}

/// Signed number in `cs[i..j]` (see `parse_i32`).
pub fn parse_i32_at(cs: &Vec<char>, i: usize, j: usize) -> (r: Option<i32>)
    requires
        i <= j <= cs@.len(),
    ensures
        r == parse_i32(cs@.subrange(i as int, j as int)),
{
    let ghost s = cs@.subrange(i as int, j as int);
    let neg = i < j && cs[i] == '-';
    let signed = i < j && (cs[i] == '+' || cs[i] == '-');
    let start = if signed {
        i + 1
    } else {
        i
    };
    assert(signed ==> s.drop_first() =~= cs@.subrange(start as int, j as int));
    assert(!signed ==> s =~= cs@.subrange(start as int, j as int));
    let limit: u64 = if neg {
        0x8000_0000
    } else {
        0x7fff_ffff
    };
    match digits_upto(cs, start, j, limit) {
        Some(v) => if neg {
            Some((0 - v as i64) as i32)
        } else {
            Some(v as i32)
        },
        None => None,
    }
}

/// Index of the first newline in `s` at `i` or after, or the length of `s`.
pub open spec fn next_newline(s: Seq<char>, i: int) -> int {
    match find_char_from(s, '\n', i) {
        Some(j) => j,
        None => s.len() as int,
    }
}

/// The index after `p` when `cs[i..j]` starts with it.
pub fn strip_at(cs: &Vec<char>, i: usize, j: usize, p: &str) -> (r: Option<usize>)
    requires
        i <= j <= cs@.len(),
    ensures
        match r {
            Some(k) => i <= k <= j && strip_prefix(cs@.subrange(i as int, j as int), p@) == Some(
                cs@.subrange(k as int, j as int),
            ),
            None => strip_prefix(cs@.subrange(i as int, j as int), p@) is None,
        },
{
    if starts_with(cs, i, j, p) {
        let n = p.unicode_len();
        assert(cs@.subrange(i as int, j as int).subrange(n as int, (j - i) as int) =~= cs@.subrange(
            i + n,
            j as int,
        ));
        Some(i + n)
    } else {
        None
    }
}

/// End of the line that starts at `i`.
pub fn line_end(cs: &Vec<char>, i: usize) -> (j: usize)
    requires
        i <= cs@.len(),
    ensures
        j as int == next_newline(cs@, i as int),
        i <= j <= cs@.len(),
{
    let mut k = i;
    while k < cs.len()
        invariant
            i <= k <= cs@.len(),
            find_char_from(cs@, '\n', i as int) == find_char_from(cs@, '\n', k as int),
        decreases cs@.len() - k,
    {
        if cs[k] == '\n' {
            return k;
        }
        k = k + 1;
    }
    k
}

} // verus!
