use vstd::prelude::*;

use crate::chars::{
    chars_of, find_char, find_char_from, find_ws, find_ws_from, parse_i32, parse_i32_at, skip_ws,
    skip_ws_back, strip_prefix, trim, trim_start,
};
use crate::compositor::Compositor;
use crate::chars::{line_end, next_newline, strip_at};

verus! {

/// Both coordinates, when both read.
pub open spec fn both(x: Option<i32>, y: Option<i32>) -> Option<(i32, i32)> {
    match (x, y) {
        (Some(a), Some(b)) => Some((a, b)),
        _ => None,
    }
}

/// End of the field of `s` that starts at index 0: the first comma, or the end.
pub open spec fn field_end(s: Seq<char>) -> int {
    match find_char_from(s, ',', 0) {
        Some(c) => c,
        None => s.len() as int,
    }
}

/// The position field(s) that follow the name and the mode of a
/// `monitor = <name>, <mode>, ...` line: `<x>x<y>` or `<x>,<y>`.
pub open spec fn hypr_position_fields(r4: Seq<char>) -> Option<(i32, i32)> {
    let f2end = field_end(r4);
    let f2 = trim(r4.subrange(0, f2end));
    match find_char_from(f2, 'x', 0) {
        Some(xk) => both(
            parse_i32(trim(f2.subrange(0, xk))),
            parse_i32(trim(f2.subrange(xk + 1, f2.len() as int))),
        ),
        None => if f2end >= r4.len() {
            None
        } else {
            let r5 = r4.subrange(f2end + 1, r4.len() as int);
            both(parse_i32(f2), parse_i32(trim(r5.subrange(0, field_end(r5)))))
        },
    }
}

/// Position that a `monitor = <name>, <mode>, <position>, ...` line gives
/// the output `name`.
pub open spec fn hypr_saved_line(line: Seq<char>, name: Seq<char>) -> Option<(i32, i32)> {
    match strip_prefix(trim(line), "monitor"@) {
        None => None,
        Some(r1) => match strip_prefix(trim_start(r1), "="@) {
            None => None,
            Some(r2) => match find_char_from(r2, ',', 0) {
                None => None,
                Some(c0) => if trim(r2.subrange(0, c0)) != name {
                    None
                } else {
                    let r3 = r2.subrange(c0 + 1, r2.len() as int);
                    match find_char_from(r3, ',', 0) {
                        None => None,
                        Some(c1) => hypr_position_fields(r3.subrange(c1 + 1, r3.len() as int)),
                    }
                },
            },
        },
    }
}

/// The output name that an `output <name> ...` line opens, if it is one.
pub open spec fn sway_output_name(t: Seq<char>) -> Option<Seq<char>> {
    match strip_prefix(t, "output"@) {
        None => None,
        Some(r) => {
            let r2 = trim_start(r);
            match find_ws_from(r2, 0) {
                Some(k) => Some(r2.subrange(0, k)),
                None => Some(r2),
            }
        },
    }
}

/// The position of a `pos <x> <y>` line.
pub open spec fn sway_pos_line(t: Seq<char>) -> Option<(i32, i32)> {
    match strip_prefix(t, "pos"@) {
        None => None,
        Some(r) => {
            let r2 = trim_start(r);
            match find_ws_from(r2, 0) {
                None => None,
                Some(k) => both(
                    parse_i32(r2.subrange(0, k)),
                    parse_i32(trim(r2.subrange(k + 1, r2.len() as int))),
                ),
            }
        },
    }
}

/// Saved position of output `name` in the lines of `s` from `i` on; `inside`
/// tells whether an `output <name>` line opened the current block.
pub open spec fn saved_from(s: Seq<char>, i: int, sway: bool, inside: bool, name: Seq<char>) -> Option<
    (i32, i32),
>
    decreases s.len() + 1 - i,
{
    if i < 0 || i > s.len() {
        None
    } else {
        let j = next_newline(s, i);
        if j < i || j > s.len() {
            None
        } else {
            let t = trim(s.subrange(i, j));
            if !sway {
                match hypr_saved_line(s.subrange(i, j), name) {
                    Some(p) => Some(p),
                    None => saved_from(s, j + 1, sway, inside, name),
                }
            } else {
                match sway_output_name(t) {
                    Some(n) => saved_from(s, j + 1, sway, n == name, name),
                    None => if inside && sway_pos_line(t) is Some {
                        sway_pos_line(t)
                    } else {
                        saved_from(s, j + 1, sway, inside && t != "}"@, name)
                    },
                }
            }
        }
    }
}

/// Position that the configuration text `content` records for output
/// `name`: the first that a line gives. Only the line- and block-oriented
/// dialects record positions that can be read back.
pub open spec fn saved_position(c: Compositor, content: Seq<char>, name: Seq<char>) -> Option<
    (i32, i32),
> {
    match c {
        Compositor::Hyprland => saved_from(content, 0, false, false, name),
        Compositor::Sway => saved_from(content, 0, true, false, name),
        _ => None,
    }
}

fn end_of_field(cs: &Vec<char>, i: usize, j: usize) -> (r: usize)
    requires
        i <= j <= cs@.len(),
    ensures
        i <= r <= j,
        r - i == field_end(cs@.subrange(i as int, j as int)),
{
    match find_char(cs, i, j, ',') {
        Some(c) => c,
        None => j,
    }
}

fn trimmed_i32(cs: &Vec<char>, i: usize, j: usize) -> (r: Option<i32>)
    requires
        i <= j <= cs@.len(),
    ensures
        r == parse_i32(trim(cs@.subrange(i as int, j as int))),
{
    let a = skip_ws(cs, i, j);
    let b = skip_ws_back(cs, a, j);
    parse_i32_at(cs, a, b)
}

fn pair_of(x: Option<i32>, y: Option<i32>) -> (r: Option<(i32, i32)>)
    ensures
        r == both(x, y),
{
    match (x, y) {
        (Some(a), Some(b)) => Some((a, b)),
        _ => None,
    }
}

fn hypr_fields_at(cs: &Vec<char>, i: usize, j: usize) -> (r: Option<(i32, i32)>)
    requires
        i <= j <= cs@.len(),
    ensures
        r == hypr_position_fields(cs@.subrange(i as int, j as int)),
{
    let ghost r4 = cs@.subrange(i as int, j as int);
    let e2 = end_of_field(cs, i, j);
    assert(r4.subrange(0, e2 - i) =~= cs@.subrange(i as int, e2 as int));
    let a = skip_ws(cs, i, e2);
    let b = skip_ws_back(cs, a, e2);
    let ghost f2 = cs@.subrange(a as int, b as int);
    match find_char(cs, a, b, 'x') {
        Some(xk) => {
            assert(f2.subrange(0, xk - a) =~= cs@.subrange(a as int, xk as int));
            assert(f2.subrange(xk - a + 1, f2.len() as int) =~= cs@.subrange(xk + 1, b as int));
            pair_of(trimmed_i32(cs, a, xk), trimmed_i32(cs, xk + 1, b))
        },
        None => {
            if e2 >= j {
                None
            } else {
                let ghost r5 = cs@.subrange(e2 + 1, j as int);
                assert(r4.subrange(e2 - i + 1, r4.len() as int) =~= r5);
                let e3 = end_of_field(cs, e2 + 1, j);
                assert(r5.subrange(0, e3 - (e2 + 1)) =~= cs@.subrange(e2 + 1, e3 as int));
                pair_of(parse_i32_at(cs, a, b), trimmed_i32(cs, e2 + 1, e3))
            }
        },
    }
}

fn hypr_line_at(cs: &Vec<char>, i: usize, j: usize, name: &Vec<char>) -> (r: Option<(i32, i32)>)
    requires
        i <= j <= cs@.len(),
    ensures
        r == hypr_saved_line(cs@.subrange(i as int, j as int), name@),
{
    let t0 = skip_ws(cs, i, j);
    let t1 = skip_ws_back(cs, t0, j);
    let k1 = strip_at(cs, t0, t1, "monitor")?;
    let k2 = skip_ws(cs, k1, t1);
    let k3 = strip_at(cs, k2, t1, "=")?;
    let ghost r2 = cs@.subrange(k3 as int, t1 as int);
    let c0 = match find_char(cs, k3, t1, ',') {
        Some(c) => c,
        None => return None,
    };
    assert(r2.subrange(0, c0 - k3) =~= cs@.subrange(k3 as int, c0 as int));
    let n0 = skip_ws(cs, k3, c0);
    let n1 = skip_ws_back(cs, n0, c0);
    if !same_chars(cs, n0, n1, name) {
        return None;
    }
    let ghost r3 = cs@.subrange(c0 + 1, t1 as int);
    assert(r2.subrange(c0 - k3 + 1, r2.len() as int) =~= r3);
    let c1 = match find_char(cs, c0 + 1, t1, ',') {
        Some(c) => c,
        None => return None,
    };
    assert(r3.subrange(c1 - (c0 + 1) + 1, r3.len() as int) =~= cs@.subrange(c1 + 1, t1 as int));
    hypr_fields_at(cs, c1 + 1, t1)
}

/// Whether `cs[i..j]` equals `name`.
fn same_chars(cs: &Vec<char>, i: usize, j: usize, name: &Vec<char>) -> (r: bool)
    requires
        i <= j <= cs@.len(),
    ensures
        r == (cs@.subrange(i as int, j as int) == name@),
{
    if j - i != name.len() {
        return false;
    }
    let mut k: usize = 0;
    while k < name.len()
        invariant
            i <= j <= cs@.len(),
            j - i == name@.len(),
            k <= name@.len(),
            forall|m: int| 0 <= m < k ==> cs@[i + m] == name@[m],
        decreases name@.len() - k,
    {
        if cs[i + k] != name[k] {
            assert(cs@.subrange(i as int, j as int)[k as int] != name@[k as int]);
            return false;
        }
        k = k + 1;
    }
    assert(cs@.subrange(i as int, j as int) =~= name@);
    true
}

fn sway_name_at(cs: &Vec<char>, a: usize, b: usize) -> (r: Option<(usize, usize)>)
    requires
        a <= b <= cs@.len(),
    ensures
        match r {
            Some((p, q)) => p <= q <= b && sway_output_name(cs@.subrange(a as int, b as int)) == Some(
                cs@.subrange(p as int, q as int),
            ),
            None => sway_output_name(cs@.subrange(a as int, b as int)) is None,
        },
{
    let k = strip_at(cs, a, b, "output")?;
    let p = skip_ws(cs, k, b);
    let ghost r2 = cs@.subrange(p as int, b as int);
    match find_ws(cs, p, b) {
        Some(q) => {
            assert(r2.subrange(0, q - p) =~= cs@.subrange(p as int, q as int));
            Some((p, q))
        },
        None => Some((p, b)),
    }
}

fn sway_pos_at(cs: &Vec<char>, a: usize, b: usize) -> (r: Option<(i32, i32)>)
    requires
        a <= b <= cs@.len(),
    ensures
        r == sway_pos_line(cs@.subrange(a as int, b as int)),
{
    let k = strip_at(cs, a, b, "pos")?;
    let p = skip_ws(cs, k, b);
    let ghost r2 = cs@.subrange(p as int, b as int);
    match find_ws(cs, p, b) {
        Some(q) => {
            assert(r2.subrange(0, q - p) =~= cs@.subrange(p as int, q as int));
            assert(r2.subrange(q - p + 1, r2.len() as int) =~= cs@.subrange(q + 1, b as int));
            pair_of(parse_i32_at(cs, p, q), trimmed_i32(cs, q + 1, b))
        },
        None => None,
    }
}

fn is_close_brace(cs: &Vec<char>, a: usize, b: usize) -> (r: bool)
    requires
        a <= b <= cs@.len(),
    ensures
        r == (cs@.subrange(a as int, b as int) == "}"@),
{
    proof {
        reveal_strlit("}");
    }
    if b - a != 1 {
        assert(cs@.subrange(a as int, b as int).len() != "}"@.len());
        return false;
    }
    let r = cs[a] == '}';
    assert(r ==> cs@.subrange(a as int, b as int) =~= "}"@);
    assert(!r ==> cs@.subrange(a as int, b as int)[0] != "}"@[0]);
    r
}

/// Position that `content` records for output `name` (see `saved_position`).
pub fn saved_monitor_position(c: Compositor, content: &str, name: &String) -> (r: Option<(i32, i32)>)
    ensures
        r == saved_position(c, content@, name@),
{
    let sway = match c {
        Compositor::Hyprland => false,
        Compositor::Sway => true,
        _ => return None,
    };
    let cs = chars_of(content);
    let nm = chars_of(name.as_str());
    let n = cs.len();
    let mut i: usize = 0;
    let mut inside = false;
    loop
        invariant_except_break
            i <= n,
            saved_from(cs@, i as int, sway, inside, nm@) == saved_position(c, content@, name@),
        invariant
            n == cs@.len(),
            cs@ == content@,
            nm@ == name@,
            sway == (c == Compositor::Sway),
            c == Compositor::Sway || c == Compositor::Hyprland,
        ensures
            saved_position(c, content@, name@) is None,
        decreases n + 1 - i,
    {
        let j = line_end(&cs, i);
        let t0 = skip_ws(&cs, i, j);
        let t1 = skip_ws_back(&cs, t0, j);
        if !sway {
            if let Some(p) = hypr_line_at(&cs, i, j, &nm) {
                return Some(p);
            }
        } else {
            match sway_name_at(&cs, t0, t1) {
                Some((p, q)) => {
                    inside = same_chars(&cs, p, q, &nm);
                },
                None => {
                    if inside {
                        if let Some(pos) = sway_pos_at(&cs, t0, t1) {
                            return Some(pos);
                        }
                    }
                    inside = inside && !is_close_brace(&cs, t0, t1);
                },
            }
        }
        if j >= n {
            assert(saved_from(cs@, j + 1, sway, inside, nm@) is None);
            break;
        }
        i = j + 1;
    }
    None
}

} // verus!
