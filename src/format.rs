use vstd::prelude::*;

use crate::compositor::Compositor;
use crate::geometry::{Output, Transform, find_current_mode, first_current_from, transform_code, transform_index};
use crate::text::{digit_char, int_text, nat_text, push_int, push_nat};

verus! {

/// Workspace id and the name of the output it is pinned to, if any.
pub type WorkspaceName = (usize, Option<String>);

/// Concatenation of `f` over `s`, in order.
pub open spec fn concat_map<A>(s: Seq<A>, f: spec_fn(A) -> Seq<char>) -> Seq<char>
    decreases s.len(),
{
    if s.len() == 0 {
        Seq::empty()
    } else {
        concat_map(s.drop_last(), f) + f(s.last())
    }
}

proof fn lemma_concat_map_step<A>(s: Seq<A>, f: spec_fn(A) -> Seq<char>, i: int)
    requires
        0 <= i < s.len(),
    ensures
        concat_map(s.subrange(0, i + 1), f) == concat_map(s.subrange(0, i), f) + f(s[i]),
{
    assert(s.subrange(0, i + 1).drop_last() =~= s.subrange(0, i));
}

/// Width, height and refresh rate of the first current mode, or `(0, 0, 60)`.
pub open spec fn current_mode_of(o: Output) -> (int, int, int) {
    match first_current_from(o.modes@, 0) {
        Some(i) => (
            o.modes@[i].width as int,
            o.modes@[i].height as int,
            o.modes@[i].refresh_rate as int,
        ),
        None => (0, 0, 60),
    }
}

/// A scale in hundredths as text: a whole number when it is one, else with
/// two decimals.
pub open spec fn scale_text(scale: nat) -> Seq<char> {
    if scale % 100 == 0 {
        nat_text(scale / 100)
    } else {
        nat_text(scale / 100) + seq!['.', digit_char((scale % 100) / 10), digit_char(scale % 10)]
    }
}

/// Transform name in the block and script dialects.
pub open spec fn sway_transform_name(t: Transform) -> Seq<char> {
    match t {
        Transform::Normal => "normal"@,
        Transform::Rotate90 => "90"@,
        Transform::Rotate180 => "180"@,
        Transform::Rotate270 => "270"@,
        Transform::Flipped => "flipped"@,
        Transform::Flipped90 => "flipped-90"@,
        Transform::Flipped180 => "flipped-180"@,
        Transform::Flipped270 => "flipped-270"@,
    }
}

/// `<w>x<h>@<refresh>` of an output's current mode.
pub open spec fn mode_text(o: Output) -> Seq<char> {
    int_text(current_mode_of(o).0) + "x"@ + int_text(current_mode_of(o).1) + "@"@ + int_text(
        current_mode_of(o).2,
    )
}

/// Lines of one output in the line-oriented dialect, each ending in a newline.
pub open spec fn hypr_entry(o: Output) -> Seq<char> {
    let base = "monitor = "@ + o.name@ + ", "@ + mode_text(o) + ", "@ + int_text(o.x as int) + ","@
        + int_text(o.y as int) + ", "@ + scale_text(o.scale as nat);
    let line = if o.transform != Transform::Normal {
        base + ", transform, "@ + nat_text(transform_code(o.transform))
    } else {
        base
    };
    line + "\n"@ + if !o.enabled {
        "monitor = "@ + o.name@ + ", disable\n"@
    } else {
        Seq::empty()
    }
}

/// Workspace line of the line-oriented dialect, empty when unassigned.
pub open spec fn hypr_ws_entry(w: WorkspaceName) -> Seq<char> {
    match w.1 {
        Some(n) => "workspace = "@ + nat_text(w.0 as nat) + ", monitor:"@ + n@ + "\n"@,
        None => Seq::empty(),
    }
}

/// Block of one output in the block-oriented dialect, with its separator.
pub open spec fn sway_entry(o: Output) -> Seq<char> {
    if !o.enabled {
        "output "@ + o.name@ + " disable\n\n"@
    } else {
        "output "@ + o.name@ + " {\n    mode "@ + mode_text(o) + "Hz\n    pos "@ + int_text(o.x as int)
            + " "@ + int_text(o.y as int) + "\n    scale "@ + scale_text(o.scale as nat)
            + "\n    transform "@ + sway_transform_name(o.transform) + "\n}\n\n"@
    }
}

/// Workspace line of the block-oriented dialect, empty when unassigned.
pub open spec fn sway_ws_entry(w: WorkspaceName) -> Seq<char> {
    match w.1 {
        Some(n) => "workspace "@ + nat_text(w.0 as nat) + " output "@ + n@ + "\n"@,
        None => Seq::empty(),
    }
}

/// Command of one output in the script dialect.
pub open spec fn river_entry(o: Output) -> Seq<char> {
    if !o.enabled {
        "wlr-randr --output "@ + o.name@ + " --off\n"@
    } else {
        "wlr-randr --output "@ + o.name@ + " --mode "@ + mode_text(o) + "Hz --pos "@ + int_text(
            o.x as int,
        ) + ","@ + int_text(o.y as int) + " --scale "@ + scale_text(o.scale as nat)
            + " --transform "@ + sway_transform_name(o.transform) + "\n"@
    }
}

/// Whether some workspace is pinned to an output.
pub open spec fn any_assigned(ws: Seq<WorkspaceName>) -> bool {
    exists|i: int| 0 <= i < ws.len() && (#[trigger] ws[i]).1 is Some
}

/// The whole line-oriented configuration.
pub open spec fn hyprland_text(ms: Seq<Output>, ws: Seq<WorkspaceName>) -> Seq<char> {
    concat_map(ms, |o: Output| hypr_entry(o)) + if any_assigned(ws) {
        "\n"@ + concat_map(ws, |w: WorkspaceName| hypr_ws_entry(w))
    } else {
        Seq::empty()
    }
}

/// The whole block-oriented configuration.
pub open spec fn sway_text(ms: Seq<Output>, ws: Seq<WorkspaceName>) -> Seq<char> {
    concat_map(ms, |o: Output| sway_entry(o)) + if any_assigned(ws) {
        concat_map(ws, |w: WorkspaceName| sway_ws_entry(w)) + "\n"@
    } else {
        Seq::empty()
    }
}

/// The whole script.
pub open spec fn river_text(ms: Seq<Output>) -> Seq<char> {
    "#!/bin/sh\n"@ + concat_map(ms, |o: Output| river_entry(o))
}

/// The configuration text for a compositor; `None` for an unknown one.
pub open spec fn config_text(c: Compositor, ms: Seq<Output>, ws: Seq<WorkspaceName>) -> Option<
    Seq<char>,
> {
    match c {
        Compositor::Hyprland => Some(hyprland_text(ms, ws)),
        Compositor::Sway => Some(sway_text(ms, ws)),
        Compositor::River => Some(river_text(ms)),
        Compositor::Unknown => None,
    }
}

/// Append a scale in hundredths (see `scale_text`).
pub fn push_scale(s: &mut String, scale: u32)
    ensures
        final(s)@ == old(s)@ + scale_text(scale as nat),
{
    push_nat(s, (scale / 100) as u64);
    if scale % 100 != 0 {
        s.append(".");
        push_nat(s, ((scale % 100) / 10) as u64);
        push_nat(s, (scale % 10) as u64);
        proof {
            reveal_strlit(".");
            reveal_with_fuel(nat_text, 2);
        }
    }
    assert(s@ =~= old(s)@ + scale_text(scale as nat));
}

/// A scale in hundredths as text (see `scale_text`).
pub fn format_scale(scale: u32) -> (r: String)
    ensures
        r@ == scale_text(scale as nat),
{
    let mut s = String::new();
    push_scale(&mut s, scale);
    assert(s@ =~= scale_text(scale as nat));
    s
}

/// Width, height and refresh rate of the current mode (see `current_mode_of`).
pub fn current_mode(o: &Output) -> (r: (i32, i32, i32))
    ensures
        (r.0 as int, r.1 as int, r.2 as int) == current_mode_of(*o),
{
    match find_current_mode(&o.modes) {
        Some(i) => (o.modes[i].width, o.modes[i].height, o.modes[i].refresh_rate),
        None => (0, 0, 60),
    }
}

/// Code of a transform in the line-oriented dialect.
pub fn transform_to_hyprland(t: Transform) -> (r: u8)
    ensures
        r as nat == transform_code(t),
{
    transform_index(t) as u8
}

/// Name of a transform in the block and script dialects.
pub fn transform_to_sway(t: Transform) -> (r: &'static str)
    ensures
        r@ == sway_transform_name(t),
{
    match t {
        Transform::Normal => "normal",
        Transform::Rotate90 => "90",
        Transform::Rotate180 => "180",
        Transform::Rotate270 => "270",
        Transform::Flipped => "flipped",
        Transform::Flipped90 => "flipped-90",
        Transform::Flipped180 => "flipped-180",
        Transform::Flipped270 => "flipped-270",
    }
}

fn push_mode(s: &mut String, o: &Output)
    ensures
        final(s)@ == old(s)@ + mode_text(*o),
{
    let (w, h, r) = current_mode(o);
    push_int(s, w as i64);
    s.append("x");
    push_int(s, h as i64);
    s.append("@");
    push_int(s, r as i64);
    assert(s@ =~= old(s)@ + mode_text(*o));
}

fn push_hypr_entry(s: &mut String, o: &Output)
    ensures
        final(s)@ == old(s)@ + hypr_entry(*o),
{
    s.append("monitor = ");
    s.append(o.name.as_str());
    s.append(", ");
    push_mode(s, o);
    s.append(", ");
    push_int(s, o.x as i64);
    s.append(",");
    push_int(s, o.y as i64);
    s.append(", ");
    push_scale(s, o.scale);
    if o.transform != Transform::Normal {
        s.append(", transform, ");
        push_nat(s, transform_to_hyprland(o.transform) as u64);
    }
    s.append("\n");
    if !o.enabled {
        s.append("monitor = ");
        s.append(o.name.as_str());
        s.append(", disable\n");
    }
    assert(s@ =~= old(s)@ + hypr_entry(*o));
}

fn push_sway_entry(s: &mut String, o: &Output)
    ensures
        final(s)@ == old(s)@ + sway_entry(*o),
{
    s.append("output ");
    s.append(o.name.as_str());
    if !o.enabled {
        s.append(" disable\n\n");
    } else {
        s.append(" {\n    mode ");
        push_mode(s, o);
        s.append("Hz\n    pos ");
        push_int(s, o.x as i64);
        s.append(" ");
        push_int(s, o.y as i64);
        s.append("\n    scale ");
        push_scale(s, o.scale);
        s.append("\n    transform ");
        s.append(transform_to_sway(o.transform));
        s.append("\n}\n\n");
    }
    assert(s@ =~= old(s)@ + sway_entry(*o));
}

fn push_river_entry(s: &mut String, o: &Output)
    ensures
        final(s)@ == old(s)@ + river_entry(*o),
{
    s.append("wlr-randr --output ");
    s.append(o.name.as_str());
    if !o.enabled {
        s.append(" --off\n");
    } else {
        s.append(" --mode ");
        push_mode(s, o);
        s.append("Hz --pos ");
        push_int(s, o.x as i64);
        s.append(",");
        push_int(s, o.y as i64);
        s.append(" --scale ");
        push_scale(s, o.scale);
        s.append(" --transform ");
        s.append(transform_to_sway(o.transform));
        s.append("\n");
    }
    assert(s@ =~= old(s)@ + river_entry(*o));
}

fn push_ws_entry(s: &mut String, w: &WorkspaceName, block: bool)
    ensures
        final(s)@ == old(s)@ + if block {
            sway_ws_entry(*w)
        } else {
            hypr_ws_entry(*w)
        },
{
    if let Some(n) = &w.1 {
        if block {
            s.append("workspace ");
            push_nat(s, w.0 as u64);
            s.append(" output ");
        } else {
            s.append("workspace = ");
            push_nat(s, w.0 as u64);
            s.append(", monitor:");
        }
        s.append(n.as_str());
        s.append("\n");
    }
    assert(s@ =~= old(s)@ + if block {
        sway_ws_entry(*w)
    } else {
        hypr_ws_entry(*w)
    });
}

/// Dialect of `push_entries`: 0 line-oriented, 1 block-oriented, 2 script.
pub open spec fn entry_of(dialect: u8) -> spec_fn(Output) -> Seq<char> {
    if dialect == 0 {
        |o: Output| hypr_entry(o)
    } else if dialect == 1 {
        |o: Output| sway_entry(o)
    } else {
        |o: Output| river_entry(o)
    }
}

fn push_entries(s: &mut String, ms: &Vec<Output>, dialect: u8)
    ensures
        final(s)@ == old(s)@ + concat_map(ms@, entry_of(dialect)),
{
    let ghost f = entry_of(dialect);
    let mut i: usize = 0;
    while i < ms.len()
        invariant
            i <= ms@.len(),
            f == entry_of(dialect),
            s@ == old(s)@ + concat_map(ms@.subrange(0, i as int), f),
        decreases ms@.len() - i,
    {
        if dialect == 0 {
            push_hypr_entry(s, &ms[i]);
        } else if dialect == 1 {
            push_sway_entry(s, &ms[i]);
        } else {
            push_river_entry(s, &ms[i]);
        }
        proof {
            lemma_concat_map_step(ms@, f, i as int);
        }
        assert(s@ =~= old(s)@ + concat_map(ms@.subrange(0, i + 1), f));
        i = i + 1;
    }
    assert(ms@.subrange(0, ms@.len() as int) =~= ms@);
}

fn workspace_lines(ws: &Vec<WorkspaceName>, block: bool) -> (r: (String, bool))
    ensures
        r.0@ == concat_map(
            ws@,
            if block {
                |w: WorkspaceName| sway_ws_entry(w)
            } else {
                |w: WorkspaceName| hypr_ws_entry(w)
            },
        ),
        r.1 == any_assigned(ws@),
{
    let ghost f = if block {
        |w: WorkspaceName| sway_ws_entry(w)
    } else {
        |w: WorkspaceName| hypr_ws_entry(w)
    };
    let mut s = String::new();
    let mut any = false;
    let mut i: usize = 0;
    while i < ws.len()
        invariant
            i <= ws@.len(),
            s@ == concat_map(ws@.subrange(0, i as int), f),
            f == (if block {
                |w: WorkspaceName| sway_ws_entry(w)
            } else {
                |w: WorkspaceName| hypr_ws_entry(w)
            }),
            any == exists|j: int| 0 <= j < i && (#[trigger] ws@[j]).1 is Some,
        decreases ws@.len() - i,
    {
        push_ws_entry(&mut s, &ws[i], block);
        if ws[i].1.is_some() {
            any = true;
        }
        proof {
            lemma_concat_map_step(ws@, f, i as int);
        }
        assert(s@ =~= concat_map(ws@.subrange(0, i + 1), f));
        i = i + 1;
    }
    assert(ws@.subrange(0, ws@.len() as int) =~= ws@);
    (s, any)
}

/// The line-oriented configuration (see `hyprland_text`).
pub fn format_hyprland(ms: &Vec<Output>, ws: &Vec<WorkspaceName>) -> (r: String)
    ensures
        r@ == hyprland_text(ms@, ws@),
{
    let mut s = String::new();
    push_entries(&mut s, ms, 0);
    let (lines, any) = workspace_lines(ws, false);
    if any {
        s.append("\n");
        s.append(lines.as_str());
    }
    assert(s@ =~= hyprland_text(ms@, ws@));
    s
}

/// The block-oriented configuration (see `sway_text`).
pub fn format_sway(ms: &Vec<Output>, ws: &Vec<WorkspaceName>) -> (r: String)
    ensures
        r@ == sway_text(ms@, ws@),
{
    let mut s = String::new();
    push_entries(&mut s, ms, 1);
    let (lines, any) = workspace_lines(ws, true);
    if any {
        s.append(lines.as_str());
        s.append("\n");
    }
    assert(s@ =~= sway_text(ms@, ws@));
    s
}

/// The script (see `river_text`).
pub fn format_river(ms: &Vec<Output>) -> (r: String)
    ensures
        r@ == river_text(ms@),
{
    let mut s = String::new();
    s.append("#!/bin/sh\n");
    push_entries(&mut s, ms, 2);
    assert(s@ =~= river_text(ms@));
    s
}

/// The configuration text for `c`; `None` (nothing to write) for an
/// unknown compositor.
pub fn render_monitor_config(c: Compositor, ms: &Vec<Output>, ws: &Vec<WorkspaceName>) -> (r:
    Option<String>)
    ensures
        match r {
            Some(t) => config_text(c, ms@, ws@) == Some(t@),
            None => config_text(c, ms@, ws@) is None,
        },
{
    match c {
        Compositor::Hyprland => Some(format_hyprland(ms, ws)),
        Compositor::Sway => Some(format_sway(ms, ws)),
        Compositor::River => Some(format_river(ms)),
        Compositor::Unknown => None,
    }
}

} // verus!
