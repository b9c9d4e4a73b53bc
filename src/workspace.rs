use vstd::prelude::*;

use crate::chars::{
    chars_of, find_char, find_char_from, find_ws, find_ws_from, line_end, next_newline,
    parse_usize, parse_usize_at, skip_ws, skip_ws_back, strip_at, strip_prefix, string_of, trim,
    trim_start,
};
use crate::compositor::Compositor;

verus! {

/// The workspace pair of a `workspace = <id>, monitor:<name>` line.
pub open spec fn hypr_ws_line(line: Seq<char>) -> Option<(usize, Seq<char>)> {
    match strip_prefix(trim(line), "workspace"@) {
        None => None,
        Some(r1) => match strip_prefix(trim_start(r1), "="@) {
            None => None,
            Some(r2) => {
                let r3 = trim_start(r2);
                match find_char_from(r3, ',', 0) {
                    None => None,
                    Some(k) => match parse_usize(trim(r3.subrange(0, k))) {
                        None => None,
                        Some(id) => match strip_prefix(
                            trim(r3.subrange(k + 1, r3.len() as int)),
                            "monitor:"@,
                        ) {
                            None => None,
                            Some(m) => Some((id, trim(m))),
                        },
                    },
                }
            },
        },
    }
}

/// The workspace pair of a `workspace <id> output <name>` line.
pub open spec fn sway_ws_line(line: Seq<char>) -> Option<(usize, Seq<char>)> {
    match strip_prefix(trim(line), "workspace"@) {
        None => None,
        Some(r1) => {
            let r2 = trim_start(r1);
            match find_ws_from(r2, 0) {
                None => None,
                Some(k) => match parse_usize(trim(r2.subrange(0, k))) {
                    None => None,
                    Some(id) => match strip_prefix(
                        trim(r2.subrange(k + 1, r2.len() as int)),
                        "output"@,
                    ) {
                        None => None,
                        Some(m) => Some((id, trim_start(m))),
                    },
                },
            }
        },
    }
}

/// The pair of one line in either dialect.
pub open spec fn ws_line(line: Seq<char>, sway: bool) -> Option<(usize, Seq<char>)> {
    if sway {
        sway_ws_line(line)
    } else {
        hypr_ws_line(line)
    }
}

/// Pairs of the lines of `s` from index `i` on; lines that do not match
/// are skipped.
pub open spec fn ws_pairs_from(s: Seq<char>, i: int, sway: bool) -> Seq<(usize, Seq<char>)>
    decreases s.len() + 1 - i,
{
    if i < 0 || i > s.len() {
        Seq::empty()
    } else {
        let j = next_newline(s, i);
        if j < i || j > s.len() {
            Seq::empty()
        } else {
            let rest = ws_pairs_from(s, j + 1, sway);
            match ws_line(s.subrange(i, j), sway) {
                Some(p) => seq![p] + rest,
                None => rest,
            }
        }
    }
}

/// Workspace pairs of a whole configuration text.
pub open spec fn ws_pairs(s: Seq<char>, sway: bool) -> Seq<(usize, Seq<char>)> {
    ws_pairs_from(s, 0, sway)
}

/// View of parsed pairs.
pub open spec fn pairs_view(v: Seq<(usize, String)>) -> Seq<(usize, Seq<char>)> {
    v.map_values(|p: (usize, String)| (p.0, p.1@))
}

pub(crate) fn parse_hypr_line(text: &str, cs: &Vec<char>, a: usize, b: usize) -> (r: Option<(usize, String)>)
    requires
        a <= b <= cs@.len(),
        cs@ == text@,
    ensures
        match r {
            Some(p) => hypr_ws_line(cs@.subrange(a as int, b as int)) == Some((p.0, p.1@)),
            None => hypr_ws_line(cs@.subrange(a as int, b as int)) is None,
        },
{
    let t0 = skip_ws(cs, a, b);
    let t1 = skip_ws_back(cs, t0, b);
    let k1 = strip_at(cs, t0, t1, "workspace")?;
    let k2 = skip_ws(cs, k1, t1);
    let k3 = strip_at(cs, k2, t1, "=")?;
    let k4 = skip_ws(cs, k3, t1);
    let ghost r3 = cs@.subrange(k4 as int, t1 as int);
    let c = match find_char(cs, k4, t1, ',') {
        Some(c) => c,
        None => return None,
    };
    assert(r3.subrange(0, c - k4) =~= cs@.subrange(k4 as int, c as int));
    assert(r3.subrange(c - k4 + 1, r3.len() as int) =~= cs@.subrange(c + 1, t1 as int));
    let p0 = skip_ws(cs, k4, c);
    let p1 = skip_ws_back(cs, p0, c);
    let id = parse_usize_at(cs, p0, p1)?;
    let q0 = skip_ws(cs, c + 1, t1);
    let q1 = skip_ws_back(cs, q0, t1);
    let m0 = strip_at(cs, q0, q1, "monitor:")?;
    let m1 = skip_ws(cs, m0, q1);
    let m2 = skip_ws_back(cs, m1, q1);
    Some((id, string_of(text, m1, m2)))
}

pub(crate) fn parse_sway_line(text: &str, cs: &Vec<char>, a: usize, b: usize) -> (r: Option<(usize, String)>)
    requires
        a <= b <= cs@.len(),
        cs@ == text@,
    ensures
        match r {
            Some(p) => sway_ws_line(cs@.subrange(a as int, b as int)) == Some((p.0, p.1@)),
            None => sway_ws_line(cs@.subrange(a as int, b as int)) is None,
        },
{
    let t0 = skip_ws(cs, a, b);
    let t1 = skip_ws_back(cs, t0, b);
    let k1 = strip_at(cs, t0, t1, "workspace")?;
    let k2 = skip_ws(cs, k1, t1);
    let ghost r2 = cs@.subrange(k2 as int, t1 as int);
    let c = match find_ws(cs, k2, t1) {
        Some(c) => c,
        None => return None,
    };
    assert(r2.subrange(0, c - k2) =~= cs@.subrange(k2 as int, c as int));
    assert(r2.subrange(c - k2 + 1, r2.len() as int) =~= cs@.subrange(c + 1, t1 as int));
    let p0 = skip_ws(cs, k2, c);
    let p1 = skip_ws_back(cs, p0, c);
    let id = parse_usize_at(cs, p0, p1)?;
    let q0 = skip_ws(cs, c + 1, t1);
    let q1 = skip_ws_back(cs, q0, t1);
    let m0 = strip_at(cs, q0, q1, "output")?;
    let m1 = skip_ws(cs, m0, q1);
    Some((id, string_of(text, m1, q1)))
}

fn parse_pairs(text: &str, sway: bool) -> (r: Vec<(usize, String)>)
    ensures
        pairs_view(r@) == ws_pairs(text@, sway),
{
    let cs = chars_of(text);
    let n = cs.len();
    let mut out: Vec<(usize, String)> = Vec::new();
    let mut i: usize = 0;
    loop
        invariant_except_break
            i <= n,
            pairs_view(out@) + ws_pairs_from(cs@, i as int, sway) == ws_pairs(cs@, sway),
        invariant
            n == cs@.len(),
            cs@ == text@,
        ensures
            pairs_view(out@) == ws_pairs(cs@, sway),
        decreases n + 1 - i,
    {
        let j = line_end(&cs, i);
        let parsed = if sway {
            parse_sway_line(text, &cs, i, j)
        } else {
            parse_hypr_line(text, &cs, i, j)
        };
        let ghost before = out@;
        match parsed {
            Some(p) => {
                out.push(p);
                assert(pairs_view(out@) =~= pairs_view(before).push((p.0, p.1@)));
                assert(pairs_view(out@) + ws_pairs_from(cs@, j + 1, sway) =~= pairs_view(before)
                    + ws_pairs_from(cs@, i as int, sway));
            },
            None => {
                assert(pairs_view(out@) + ws_pairs_from(cs@, j + 1, sway) == pairs_view(before)
                    + ws_pairs_from(cs@, i as int, sway));
            },
        }
        if j >= n {
            assert(ws_pairs_from(cs@, j + 1, sway) =~= Seq::empty());
            assert(pairs_view(out@) =~= pairs_view(out@) + ws_pairs_from(cs@, j + 1, sway));
            break;
        }
        i = j + 1;
    }
    out
}

/// Pairs of the `workspace = <id>, monitor:<name>` lines of `content`, in order.
pub fn parse_hyprland_workspaces(content: &str) -> (r: Vec<(usize, String)>)
    ensures
        pairs_view(r@) == ws_pairs(content@, false),
{
    parse_pairs(content, false)
}

/// Pairs of the `workspace <id> output <name>` lines of `content`, in order.
pub fn parse_sway_workspaces(content: &str) -> (r: Vec<(usize, String)>)
    ensures
        pairs_view(r@) == ws_pairs(content@, true),
{
    parse_pairs(content, true)
}

/// Workspace pairs of an existing configuration text in the compositor's
/// dialect; none for a compositor whose file has no workspace lines.
pub fn parse_workspace_config(compositor: Compositor, content: &str) -> (r: Vec<(usize, String)>)
    ensures
        compositor == Compositor::Hyprland ==> pairs_view(r@) == ws_pairs(content@, false),
        compositor == Compositor::Sway ==> pairs_view(r@) == ws_pairs(content@, true),
        compositor != Compositor::Hyprland && compositor != Compositor::Sway ==> r@.len() == 0,
{
    match compositor {
        Compositor::Hyprland => parse_hyprland_workspaces(content),
        Compositor::Sway => parse_sway_workspaces(content),
        _ => Vec::new(),
    }
}

} // verus!
