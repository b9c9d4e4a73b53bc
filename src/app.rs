use std::collections::HashMap;
use vstd::prelude::*;

use crate::compositor::Compositor;
use crate::format::{config_text, render_monitor_config};
use crate::assign::{cycle_assignment, cycled, enabled_indices, enabled_monitor_indices};
use crate::placement::{
    calculate_closest_non_overlapping_position, calculate_non_overlapping_position, enable_place,
    enabled_count, enabled_from, position_overlaps, same_name,
};
use crate::saved::{saved_monitor_position, saved_position};
use crate::workspace::{pairs_view, parse_workspace_config, ws_pairs};
use crate::geometry::{
    Output, Transform, effective_dimensions, find_current_mode, first_current_from, footprint,
    rects_intersect, rects_overlap, transform_at, transform_code, transform_index, TRANSFORM_COUNT,
};

verus! {

broadcast use vstd::std_specs::hash::group_hash_axioms;

/// Direction of a keyboard move on the map.
#[derive(Clone, Copy, Debug, PartialEq, Eq, Structural)]
pub enum PositionDirection {
    Left,
    Right,
    Up,
    Down,
}

/// A numbered workspace and the index of the output it is pinned to.
#[derive(Clone, Copy, Debug, PartialEq, Eq, Structural)]
pub struct WorkspaceAssignment {
    pub id: usize,
    pub monitor_idx: Option<usize>,
}

/// The editing panel that receives directional input.
#[derive(Clone, Copy, Debug, PartialEq, Eq, Structural)]
pub enum Panel {
    Modes,
    Layout,
    Scale,
    Transform,
    Workspaces,
}

/// How far one keyboard move shifts an output.
#[derive(Clone, Copy, Debug, PartialEq, Eq, Structural)]
pub enum StepPolicy {
    /// The step grows as `1 + 2 * repeats` while the same direction is
    /// repeated within `REPEAT_WINDOW_MS`.
    Accelerating,
    /// The step is a tenth of the gap to the nearest output ahead.
    Proportional,
}

/// A request to the display server. Scales are in hundredths.
#[derive(Clone, Debug)]
pub enum MonitorAction {
    Toggle { name: String, position: Option<(i32, i32)> },
    SwitchMode { name: String, width: i32, height: i32, refresh_rate: i32 },
    SetScale { name: String, scale: u32 },
    SetTransform { name: String, transform: Transform },
    SetPosition { name: String, x: i32, y: i32 },
}

/// A key press, as the terminal loop reads it.
#[derive(Clone, Copy, Debug, PartialEq, Eq, Structural)]
pub enum Key {
    Quit,
    Up,
    Down,
    Left,
    Right,
    NextPanel,
    Toggle,
    Reset,
    NextOutput,
    PrevOutput,
    Plus,
    Minus,
    Enter,
    Confirm,
    Other,
}

/// What the terminal loop does after a key: stop, or go on after writing
/// the configuration text, if any.
#[derive(Debug)]
pub enum KeyOutcome {
    Quit,
    Continue(Option<String>),
}

/// Two moves in one direction closer than this (in milliseconds) accelerate.
pub const REPEAT_WINDOW_MS: u64 = 200;

/// Smallest pending scale, in hundredths.
pub const MIN_SCALE: u32 = 50;

/// Largest pending scale, in hundredths.
pub const MAX_SCALE: u32 = 1000;

/// Step of one scale adjustment, in hundredths.
pub const SCALE_STEP: u32 = 1;

/// Smallest map zoom, in tenths.
pub const MIN_ZOOM: u32 = 2;

/// Largest map zoom, in tenths.
pub const MAX_ZOOM: u32 = 50;

/// Gap below which a proportional move takes single steps.
pub const SLOW_GAP: i64 = 10;

/// Proportional step when no output lies ahead.
pub const FREE_STEP: i64 = 50;

/// Size assumed for an output that is not in the list.
pub const FALLBACK_WIDTH: i32 = 1920;

/// Size assumed for an output that is not in the list.
pub const FALLBACK_HEIGHT: i32 = 1080;

/// The whole arrangement state: outputs, selection, pending edits, panels
/// and workspace assignments. Requests for the display server collect in
/// `actions` until the caller takes them.
pub struct App {
    pub monitors: Vec<Output>,
    pub selected_monitor: usize,
    pub mode_selected: Option<usize>,
    pub transform_selected: Option<usize>,
    pub pending_scale: u32,
    pub pending_positions: HashMap<usize, (i32, i32)>,
    pub map_zoom: u32,
    pub panel: Panel,
    pub compositor: Compositor,
    pub monitor_config_path: String,
    pub needs_save: bool,
    pub pending_toggle_warning: bool,
    pub workspace_assignments: Vec<WorkspaceAssignment>,
    pub workspace_selected: Option<usize>,
    pub step_policy: StepPolicy,
    pub actions: Vec<MonitorAction>,
    pub initial_workspace_names: Option<Vec<(usize, String)>>,
    pub last_move_time: u64,
    pub last_move_direction: Option<PositionDirection>,
    pub move_repeat_count: u32,
}

/// Workspaces `1..=n`, none assigned.
pub open spec fn fresh_workspaces(n: nat) -> Seq<WorkspaceAssignment> {
    Seq::new(n, |i: int| WorkspaceAssignment { id: (i + 1) as usize, monitor_idx: None })
}

/// An assignment with a reference past `n` outputs cleared.
pub open spec fn validated(w: WorkspaceAssignment, n: nat) -> WorkspaceAssignment {
    match w.monitor_idx {
        Some(i) => if i >= n {
            WorkspaceAssignment { id: w.id, monitor_idx: None }
        } else {
            w
        },
        None => w,
    }
}

/// Index of the first output named `name`, at or after `i`.
pub open spec fn index_of_name_from(ms: Seq<Output>, name: Seq<char>, i: int) -> Option<int>
    decreases ms.len() - i,
{
    if i < 0 || i >= ms.len() {
        None
    } else if ms[i].name@ == name {
        Some(i)
    } else {
        index_of_name_from(ms, name, i + 1)
    }
}

/// Index of the first output named `name`.
pub open spec fn index_of_name(ms: Seq<Output>, name: Seq<char>) -> Option<int> {
    index_of_name_from(ms, name, 0)
}

/// Clamp to `[0, i32::MAX]`.
pub open spec fn clamp_coord(v: int) -> i32 {
    if v < 0 {
        0
    } else if v > i32::MAX {
        i32::MAX
    } else {
        v as i32
    }
}

/// A value moved by `d` hundredths and kept in `[MIN_SCALE, MAX_SCALE]`.
pub open spec fn clamp_scale(v: int) -> u32 {
    if v < MIN_SCALE {
        MIN_SCALE
    } else if v > MAX_SCALE {
        MAX_SCALE
    } else {
        v as u32
    }
}

/// The panel that follows `p` in the cycle Layout, Modes, Workspaces, Scale, Transform.
pub open spec fn next_panel(p: Panel) -> Panel {
    match p {
        Panel::Layout => Panel::Modes,
        Panel::Modes => Panel::Workspaces,
        Panel::Workspaces => Panel::Scale,
        Panel::Scale => Panel::Transform,
        Panel::Transform => Panel::Layout,
    }
}

/// Index after `i` in a ring of `len` (back to 0 from the last or from past
/// the end), starting at 0 when nothing is selected.
pub open spec fn ring_next(sel: Option<usize>, len: nat) -> Option<usize> {
    match sel {
        Some(i) => Some(
            if i + 1 < len {
                (i + 1) as usize
            } else {
                0usize
            },
        ),
        None => Some(0),
    }
}

/// Index before `i` in a ring of `len` (to the last from 0 or from past
/// the end), starting at 0 when nothing is selected.
pub open spec fn ring_prev(sel: Option<usize>, len: nat) -> Option<usize> {
    match sel {
        Some(i) => Some(
            if i == 0 || i > len {
                (len - 1) as usize
            } else {
                (i - 1) as usize
            },
        ),
        None => Some(0),
    }
}

fn wrap_next(sel: Option<usize>, len: usize) -> (r: Option<usize>)
    requires
        len > 0,
    ensures
        r == ring_next(sel, len as nat),
{
    match sel {
        Some(i) => Some(if i < len - 1 { i + 1 } else { 0 }),
        None => Some(0),
    }
}

fn wrap_prev(sel: Option<usize>, len: usize) -> (r: Option<usize>)
    requires
        len > 0,
    ensures
        r == ring_prev(sel, len as nat),
{
    match sel {
        Some(i) => Some(if i == 0 || i > len { len - 1 } else { i - 1 }),
        None => Some(0),
    }
}

impl App {
    /// Position shown for output `i`: its pending position if any, else its
    /// own, else the origin.
    pub open spec fn shown(&self, i: int) -> (i32, i32) {
        if 0 <= i && self.pending_positions@.contains_key(i as usize) {
            self.pending_positions@[i as usize]
        } else if 0 <= i < self.monitors@.len() {
            (self.monitors@[i].x, self.monitors@[i].y)
        } else {
            (0, 0)
        }
    }

    /// The panel fields that follow the selected output.
    pub open spec fn synced_with(&self, old: &App) -> bool {
        if old.selected_monitor < old.monitors@.len() {
            let m = old.monitors@[old.selected_monitor as int];
            &&& self.pending_scale == m.scale
            &&& self.transform_selected == Some(transform_code(m.transform) as usize)
            &&& self.mode_selected == Some(
                match first_current_from(m.modes@, 0) {
                    Some(i) => i as usize,
                    None => 0usize,
                },
            )
        } else {
            &&& self.pending_scale == old.pending_scale
            &&& self.transform_selected == old.transform_selected
            &&& self.mode_selected == old.mode_selected
        }
    }

    /// Create an empty state for `workspace_count` workspaces. The workspace
    /// lines of `existing_config` (the configuration file as it stands, empty
    /// when it could not be read) are applied once the first snapshot arrives.
    /// `step_policy` chooses how keyboard moves size their steps.
    pub fn new(
        compositor: Compositor,
        monitor_config_path: String,
        workspace_count: usize,
        existing_config: &str,
        step_policy: StepPolicy,
    ) -> (r: App)
        ensures
            r.monitors@.len() == 0,
            r.selected_monitor == 0,
            r.compositor == compositor,
            r.monitor_config_path@ == monitor_config_path@,
            r.workspace_assignments@ == fresh_workspaces(workspace_count as nat),
            r.initial_workspace_names is Some,
            compositor == Compositor::Hyprland ==> pairs_view(r.initial_workspace_names.unwrap()@)
                == ws_pairs(existing_config@, false),
            compositor == Compositor::Sway ==> pairs_view(r.initial_workspace_names.unwrap()@)
                == ws_pairs(existing_config@, true),
            compositor != Compositor::Hyprland && compositor != Compositor::Sway
                ==> r.initial_workspace_names.unwrap()@.len() == 0,
            r.pending_positions@ == Map::<usize, (i32, i32)>::empty(),
            r.pending_scale == 100,
            r.map_zoom == 10,
            r.panel == Panel::Layout,
            r.mode_selected is None,
            r.transform_selected == Some(0usize),
            r.workspace_selected == Some(0usize),
            r.step_policy == step_policy,
            r.actions@.len() == 0,
            !r.needs_save,
            !r.pending_toggle_warning,
            r.last_move_direction is None,
            r.move_repeat_count == 0,
    {
        let workspace_names = parse_workspace_config(compositor, existing_config);
        let mut workspaces: Vec<WorkspaceAssignment> = Vec::new();
        let mut id: usize = 0;
        while id < workspace_count
            invariant
                id <= workspace_count,
                workspaces@ == fresh_workspaces(id as nat),
            decreases workspace_count - id,
        {
            workspaces.push(WorkspaceAssignment { id: id + 1, monitor_idx: None });
            id = id + 1;
            assert(workspaces@ =~= fresh_workspaces(id as nat));
        }
        App {
            monitors: Vec::new(),
            selected_monitor: 0,
            mode_selected: None,
            transform_selected: Some(0),
            pending_scale: 100,
            pending_positions: HashMap::new(),
            map_zoom: 10,
            panel: Panel::Layout,
            compositor,
            monitor_config_path,
            needs_save: false,
            pending_toggle_warning: false,
            workspace_assignments: workspaces,
            workspace_selected: Some(0),
            step_policy,
            actions: Vec::new(),
            initial_workspace_names: Some(workspace_names),
            last_move_time: 0,
            last_move_direction: None,
            move_repeat_count: 0,
        }
    }

    /// The selected output, if the selection points at one.
    pub fn selected_monitor(&self) -> (r: Option<&Output>)
        ensures
            self.selected_monitor < self.monitors@.len() ==> r == Some(
                &self.monitors@[self.selected_monitor as int],
            ),
            self.selected_monitor >= self.monitors@.len() ==> r is None,
    {
        if self.selected_monitor < self.monitors.len() {
            Some(&self.monitors[self.selected_monitor])
        } else {
            None
        }
    }

    /// Copy the selected output's scale, transform and current mode into the
    /// panel fields.
    fn sync_panel_state(&mut self)
        ensures
            final(self).synced_with(old(self)),
            *final(self) == (App {
                pending_scale: final(self).pending_scale,
                transform_selected: final(self).transform_selected,
                mode_selected: final(self).mode_selected,
                ..*old(self)
            }),
    {
        if self.selected_monitor >= self.monitors.len() {
            return;
        }
        let m = &self.monitors[self.selected_monitor];
        let scale = m.scale;
        let tidx = transform_index(m.transform);
        let midx = match find_current_mode(&m.modes) {
            Some(i) => i,
            None => 0,
        };
        self.pending_scale = scale;
        self.transform_selected = Some(tidx);
        self.mode_selected = Some(midx);
    }

    /// Clear every workspace reference past the end of the output list.
    fn validate_workspace_assignments(&mut self)
        ensures
            final(self).workspace_assignments@.len() == old(self).workspace_assignments@.len(),
            forall|i: int|
                0 <= i < old(self).workspace_assignments@.len() ==> #[trigger] final(self).workspace_assignments@[i] == validated(
                    old(self).workspace_assignments@[i],
                    old(self).monitors@.len(),
                ),
            *final(self) == (App {
                workspace_assignments: final(self).workspace_assignments,
                ..*old(self)
            }),
    {
        let n = self.monitors.len();
        let mut i: usize = 0;
        while i < self.workspace_assignments.len()
            invariant
                n == self.monitors@.len(),
                i <= self.workspace_assignments@.len(),
                self.workspace_assignments@.len() == old(self).workspace_assignments@.len(),
                forall|j: int|
                    0 <= j < i ==> #[trigger] self.workspace_assignments@[j] == validated(
                        old(self).workspace_assignments@[j],
                        n as nat,
                    ),
                forall|j: int|
                    i <= j < self.workspace_assignments@.len() ==> #[trigger] self.workspace_assignments@[j]
                        == old(self).workspace_assignments@[j],
                *self == (App { workspace_assignments: self.workspace_assignments, ..*old(self) }),
            decreases self.workspace_assignments@.len() - i,
        {
            let w = self.workspace_assignments[i];
            if let Some(idx) = w.monitor_idx {
                if idx >= n {
                    self.workspace_assignments.set(i, WorkspaceAssignment { id: w.id, monitor_idx: None });
                }
            }
            i = i + 1;
        }
    }

    /// Advance the active panel through its fixed cycle.
    pub fn toggle_panel(&mut self)
        ensures
            *final(self) == (App { panel: next_panel(old(self).panel), ..*old(self) }),
    {
        self.panel = match self.panel {
            Panel::Layout => Panel::Modes,
            Panel::Modes => Panel::Workspaces,
            Panel::Workspaces => Panel::Scale,
            Panel::Scale => Panel::Transform,
            Panel::Transform => Panel::Layout,
        };
    }

    /// Raise the pending scale by one step, kept in `[MIN_SCALE, MAX_SCALE]`.
    pub fn scale_up(&mut self)
        ensures
            final(self).pending_scale == clamp_scale(old(self).pending_scale + SCALE_STEP),
            MIN_SCALE <= final(self).pending_scale <= MAX_SCALE,
            *final(self) == (App { pending_scale: final(self).pending_scale, ..*old(self) }),
            final(self).monitors == old(self).monitors,
            final(self).pending_positions == old(self).pending_positions,
    {
        let v = self.pending_scale as u64 + SCALE_STEP as u64;
        self.pending_scale = if v < MIN_SCALE as u64 {
            MIN_SCALE
        } else if v > MAX_SCALE as u64 {
            MAX_SCALE
        } else {
            v as u32
        };
    }

    /// Lower the pending scale by one step, kept in `[MIN_SCALE, MAX_SCALE]`.
    pub fn scale_down(&mut self)
        ensures
            final(self).pending_scale == clamp_scale(old(self).pending_scale - SCALE_STEP),
            MIN_SCALE <= final(self).pending_scale <= MAX_SCALE,
            *final(self) == (App { pending_scale: final(self).pending_scale, ..*old(self) }),
            final(self).monitors == old(self).monitors,
            final(self).pending_positions == old(self).pending_positions,
    {
        let v = self.pending_scale as i64 - SCALE_STEP as i64;
        self.pending_scale = if v < MIN_SCALE as i64 {
            MIN_SCALE
        } else if v > MAX_SCALE as i64 {
            MAX_SCALE
        } else {
            v as u32
        };
    }

    /// Zoom the map in by a tenth, up to `MAX_ZOOM`.
    pub fn zoom_in(&mut self)
        ensures
            final(self).map_zoom == zoomed_in(old(self).map_zoom),
            *final(self) == (App { map_zoom: final(self).map_zoom, ..*old(self) }),
    {
        self.map_zoom = if self.map_zoom >= MAX_ZOOM { MAX_ZOOM } else { self.map_zoom + 1 };
    }

    /// Zoom the map out by a tenth, down to `MIN_ZOOM`.
    pub fn zoom_out(&mut self)
        ensures
            final(self).map_zoom == zoomed_out(old(self).map_zoom),
            *final(self) == (App { map_zoom: final(self).map_zoom, ..*old(self) }),
    {
        self.map_zoom = if self.map_zoom <= MIN_ZOOM { MIN_ZOOM } else { self.map_zoom - 1 };
    }

    /// The display server reported that a request failed: the save that the
    /// request made due is dropped; nothing else is rolled back.
    pub fn action_failed(&mut self)
        ensures
            *final(self) == (App { needs_save: false, ..*old(self) }),
    {
        self.needs_save = false;
    }

    /// Close the last-output warning without acting on it.
    pub fn dismiss_warning(&mut self)
        ensures
            *final(self) == (App { pending_toggle_warning: false, ..*old(self) }),
    {
        self.pending_toggle_warning = false;
    }

    /// Whether any move waits to be committed.
    pub fn has_pending_positions(&self) -> (r: bool)
        ensures
            r == (self.pending_positions@.len() > 0),
    {
        !self.pending_positions.is_empty()
    }

    /// Drop every uncommitted move.
    pub fn reset_positions(&mut self)
        ensures
            final(self).pending_positions@ == Map::<usize, (i32, i32)>::empty(),
            *final(self) == (App { pending_positions: final(self).pending_positions, ..*old(self) }),
    {
        self.pending_positions.clear();
    }

    /// Position shown for output `idx` (see `shown`).
    pub fn display_position(&self, idx: usize) -> (r: (i32, i32))
        ensures
            r == self.shown(idx as int),
    {
        match self.pending_positions.get(&idx) {
            Some(p) => *p,
            None => if idx < self.monitors.len() {
                (self.monitors[idx].x, self.monitors[idx].y)
            } else {
                (0, 0)
            },
        }
    }
}


/// Clamp an `i64` coordinate to `[0, i32::MAX]`.
fn clamp_coord_exec(v: i64) -> (r: i32)
    ensures
        r == clamp_coord(v as int),
{
    if v < 0 {
        0
    } else if v > i32::MAX as i64 {
        i32::MAX
    } else {
        v as i32
    }
}

impl App {
    /// Repeat count after a move in `dir` at time `now` (milliseconds): one
    /// more when the last move went the same way less than
    /// `REPEAT_WINDOW_MS` ago, else zero.
    pub open spec fn repeat_after(&self, dir: PositionDirection, now: u64) -> u32 {
        let elapsed = if now >= self.last_move_time {
            now - self.last_move_time
        } else {
            0
        };
        if self.last_move_direction == Some(dir) && elapsed < REPEAT_WINDOW_MS {
            if self.move_repeat_count == u32::MAX {
                u32::MAX
            } else {
                (self.move_repeat_count + 1) as u32
            }
        } else {
            0
        }
    }

    /// Gap along `dir` from the selected output to output `i`, when `i` is
    /// another enabled output that lies ahead and overlaps it across the axis.
    pub open spec fn gap_to(&self, dir: PositionDirection, i: int) -> Option<int> {
        let s = self.selected_monitor as int;
        if i == s || !(0 <= i < self.monitors@.len()) || !(0 <= s < self.monitors@.len())
            || !self.monitors@[i].enabled {
            None
        } else {
            let sx = self.shown(s).0 as int;
            let sy = self.shown(s).1 as int;
            let sw = footprint(self.monitors@[s]).0;
            let sh = footprint(self.monitors@[s]).1;
            let ox = self.shown(i).0 as int;
            let oy = self.shown(i).1 as int;
            let ow = footprint(self.monitors@[i]).0;
            let oh = footprint(self.monitors@[i]).1;
            let rows_meet = sy < oy + oh && sy + sh > oy;
            let cols_meet = sx < ox + ow && sx + sw > ox;
            match dir {
                PositionDirection::Right => if rows_meet && ox >= sx + sw {
                    Some(ox - (sx + sw))
                } else {
                    None
                },
                PositionDirection::Left => if rows_meet && sx >= ox + ow {
                    Some(sx - (ox + ow))
                } else {
                    None
                },
                PositionDirection::Down => if cols_meet && oy >= sy + sh {
                    Some(oy - (sy + sh))
                } else {
                    None
                },
                PositionDirection::Up => if cols_meet && sy >= oy + oh {
                    Some(sy - (oy + oh))
                } else {
                    None
                },
            }
        }
    }

    /// Smallest `gap_to` over the outputs at index `i` and after.
    pub open spec fn nearest_gap_from(&self, dir: PositionDirection, i: int) -> Option<int>
        decreases self.monitors@.len() - i,
    {
        if i < 0 || i >= self.monitors@.len() {
            None
        } else {
            let rest = self.nearest_gap_from(dir, i + 1);
            match self.gap_to(dir, i) {
                None => rest,
                Some(g) => match rest {
                    None => Some(g),
                    Some(r) => Some(
                        if g <= r {
                            g
                        } else {
                            r
                        },
                    ),
                },
            }
        }
    }

    /// Size of the next move in `dir` at time `now`, by the step policy.
    pub open spec fn step_for(&self, dir: PositionDirection, now: u64) -> int {
        match self.step_policy {
            StepPolicy::Accelerating => 1 + 2 * self.repeat_after(dir, now),
            StepPolicy::Proportional => match self.nearest_gap_from(dir, 0) {
                None => FREE_STEP as int,
                Some(g) => if g < SLOW_GAP {
                    1
                } else {
                    g / 10
                },
            },
        }
    }

    /// Where the selected output goes by `step` along `dir`, clamped to be
    /// non-negative.
    pub open spec fn candidate(&self, dir: PositionDirection, step: int) -> (i32, i32) {
        let c = self.shown(self.selected_monitor as int);
        let cx = c.0 as int;
        let cy = c.1 as int;
        match dir {
            PositionDirection::Left => (clamp_coord(cx - step), clamp_coord(cy)),
            PositionDirection::Right => (clamp_coord(cx + step), clamp_coord(cy)),
            PositionDirection::Up => (clamp_coord(cx), clamp_coord(cy - step)),
            PositionDirection::Down => (clamp_coord(cx), clamp_coord(cy + step)),
        }
    }

    /// First enabled output other than the selected one, at index `i` or
    /// after, that the selected output would overlap at `(nx, ny)`.
    pub open spec fn hit_from(&self, nx: int, ny: int, i: int) -> Option<int>
        decreases self.monitors@.len() - i,
    {
        let s = self.selected_monitor as int;
        if i < 0 || i >= self.monitors@.len() || !(0 <= s < self.monitors@.len()) {
            None
        } else if i != s && self.monitors@[i].enabled && rects_overlap(
            nx,
            ny,
            footprint(self.monitors@[s]).0,
            footprint(self.monitors@[s]).1,
            self.shown(i).0 as int,
            self.shown(i).1 as int,
            footprint(self.monitors@[i]).0,
            footprint(self.monitors@[i]).1,
        ) {
            Some(i)
        } else {
            self.hit_from(nx, ny, i + 1)
        }
    }

    /// New positions of the selected output and of output `j` when a move
    /// along `dir` runs into `j`: `j` goes to where the mover started, and
    /// the mover lands flush against `j`'s edge on the side it moved to
    /// (moving left, its right edge on `j`'s left edge; moving up, its bottom
    /// edge on `j`'s top edge; moving right or down, just past `j`'s width or
    /// height from its start). Coordinates are clamped to be non-negative.
    pub open spec fn swap_positions(&self, dir: PositionDirection, j: int) -> (
        (i32, i32),
        (i32, i32),
    ) {
        let s = self.selected_monitor as int;
        let cx = self.shown(s).0 as int;
        let cy = self.shown(s).1 as int;
        let ox = self.shown(j).0 as int;
        let oy = self.shown(j).1 as int;
        let sw = footprint(self.monitors@[s]).0;
        let sh = footprint(self.monitors@[s]).1;
        let ow = footprint(self.monitors@[j]).0;
        let oh = footprint(self.monitors@[j]).1;
        match dir {
            PositionDirection::Left => (
                (clamp_coord(ox - sw), clamp_coord(cy)),
                (clamp_coord(cx), clamp_coord(cy)),
            ),
            PositionDirection::Right => (
                (clamp_coord(cx + ow), clamp_coord(cy)),
                (clamp_coord(cx), clamp_coord(cy)),
            ),
            PositionDirection::Up => (
                (clamp_coord(cx), clamp_coord(oy - sh)),
                (clamp_coord(cx), clamp_coord(cy)),
            ),
            PositionDirection::Down => (
                (clamp_coord(cx), clamp_coord(cy + oh)),
                (clamp_coord(cx), clamp_coord(cy)),
            ),
        }
    }

    /// Pending positions after moving the selected output along `dir` by `step`.
    pub open spec fn moved_positions(&self, dir: PositionDirection, step: int) -> Map<
        usize,
        (i32, i32),
    > {
        let c = self.candidate(dir, step);
        let s = self.selected_monitor;
        match self.hit_from(c.0 as int, c.1 as int, 0) {
            Some(j) => self.pending_positions@.insert(s, self.swap_positions(dir, j).0).insert(
                j as usize,
                self.swap_positions(dir, j).1,
            ),
            None => self.pending_positions@.insert(s, c),
        }
    }

    /// Whether `after` is this state once the selected output has moved
    /// along `dir` at time `now`: pending positions as `moved_positions`
    /// gives them and the repeat bookkeeping updated, nothing else changed;
    /// a missing or disabled selection leaves the state as it is.
    pub open spec fn moved_to(&self, after: App, dir: PositionDirection, now: u64) -> bool {
        let s = self.selected_monitor;
        if s >= self.monitors@.len() || !self.monitors@[s as int].enabled {
            after == *self
        } else {
            &&& after.pending_positions@ == self.moved_positions(dir, self.step_for(dir, now))
            &&& after == (App {
                pending_positions: after.pending_positions,
                move_repeat_count: self.repeat_after(dir, now),
                last_move_time: now,
                last_move_direction: Some(dir),
                ..*self
            })
        }
    }

    fn gap_exec(&self, dir: PositionDirection, i: usize) -> (r: Option<i64>)
        requires
            i < self.monitors@.len(),
            self.selected_monitor < self.monitors@.len(),
        ensures
            match r {
                Some(g) => self.gap_to(dir, i as int) == Some(g as int) && 0 <= g
                    <= 0x2_0000_0000,
                None => self.gap_to(dir, i as int) is None,
            },
    {
        let s = self.selected_monitor;
        if i == s || !self.monitors[i].enabled {
            return None;
        }
        let (sx, sy) = self.display_position(s);
        let (sw, sh) = effective_dimensions(&self.monitors[s]);
        let (ox, oy) = self.display_position(i);
        let (ow, oh) = effective_dimensions(&self.monitors[i]);
        let (sx, sy, sw, sh) = (sx as i64, sy as i64, sw as i64, sh as i64);
        let (ox, oy, ow, oh) = (ox as i64, oy as i64, ow as i64, oh as i64);
        let rows_meet = sy < oy + oh && sy + sh > oy;
        let cols_meet = sx < ox + ow && sx + sw > ox;
        match dir {
            PositionDirection::Right => if rows_meet && ox >= sx + sw {
                Some(ox - (sx + sw))
            } else {
                None
            },
            PositionDirection::Left => if rows_meet && sx >= ox + ow {
                Some(sx - (ox + ow))
            } else {
                None
            },
            PositionDirection::Down => if cols_meet && oy >= sy + sh {
                Some(oy - (sy + sh))
            } else {
                None
            },
            PositionDirection::Up => if cols_meet && sy >= oy + oh {
                Some(sy - (oy + oh))
            } else {
                None
            },
        }
    }

    fn nearest_gap(&self, dir: PositionDirection) -> (r: Option<i64>)
        requires
            self.selected_monitor < self.monitors@.len(),
        ensures
            match r {
                Some(g) => self.nearest_gap_from(dir, 0) == Some(g as int) && 0 <= g
                    <= 0x2_0000_0000,
                None => self.nearest_gap_from(dir, 0) is None,
            },
    {
        let mut best: Option<i64> = None;
        let mut i: usize = self.monitors.len();
        while i > 0
            invariant
                i <= self.monitors@.len(),
                self.selected_monitor < self.monitors@.len(),
                match best {
                    Some(g) => self.nearest_gap_from(dir, i as int) == Some(g as int) && 0 <= g
                        <= 0x2_0000_0000,
                    None => self.nearest_gap_from(dir, i as int) is None,
                },
            decreases i,
        {
            i = i - 1;
            match self.gap_exec(dir, i) {
                None => {},
                Some(g) => {
                    best = match best {
                        None => Some(g),
                        Some(r) => Some(if g <= r { g } else { r }),
                    };
                },
            }
        }
        best
    }

    fn step_size(&self, dir: PositionDirection, now: u64) -> (r: i64)
        requires
            self.selected_monitor < self.monitors@.len(),
        ensures
            r as int == self.step_for(dir, now),
            1 <= r <= 0x2_0000_0000,
    {
        match self.step_policy {
            StepPolicy::Accelerating => {
                let elapsed = if now >= self.last_move_time {
                    now - self.last_move_time
                } else {
                    0
                };
                let repeat: u32 = if self.last_move_direction == Some(dir) && elapsed
                    < REPEAT_WINDOW_MS {
                    if self.move_repeat_count == u32::MAX {
                        u32::MAX
                    } else {
                        self.move_repeat_count + 1
                    }
                } else {
                    0
                };
                1 + 2 * (repeat as i64)
            },
            StepPolicy::Proportional => match self.nearest_gap(dir) {
                None => FREE_STEP,
                Some(g) => if g < SLOW_GAP {
                    1
                } else {
                    g / 10
                },
            },
        }
    }

    fn first_hit(&self, nx: i32, ny: i32) -> (r: Option<usize>)
        requires
            self.selected_monitor < self.monitors@.len(),
        ensures
            match r {
                Some(j) => self.hit_from(nx as int, ny as int, 0) == Some(j as int) && j
                    < self.monitors@.len(),
                None => self.hit_from(nx as int, ny as int, 0) is None,
            },
    {
        let s = self.selected_monitor;
        let (sw, sh) = effective_dimensions(&self.monitors[s]);
        let mut i: usize = 0;
        while i < self.monitors.len()
            invariant
                i <= self.monitors@.len(),
                s == self.selected_monitor,
                s < self.monitors@.len(),
                (sw as int, sh as int) == footprint(self.monitors@[s as int]),
                self.hit_from(nx as int, ny as int, 0) == self.hit_from(nx as int, ny as int, i as int),
            decreases self.monitors@.len() - i,
        {
            if i != s && self.monitors[i].enabled {
                let (mx, my) = self.display_position(i);
                let (mw, mh) = effective_dimensions(&self.monitors[i]);
                if rects_intersect(nx, ny, sw, sh, mx, my, mw, mh) {
                    return Some(i);
                }
            }
            i = i + 1;
        }
        None
    }

    /// Move the selected output along `dir` at time `now` (milliseconds).
    /// The step follows `step_policy`. When the new place overlaps another
    /// enabled output, the two swap (see `swap_positions`); only that one
    /// collision is resolved. Both results become pending positions, and no
    /// pending position written here is negative. A disabled or missing
    /// selection leaves everything as it was.
    pub fn move_monitor(&mut self, dir: PositionDirection, now: u64)
        ensures
            old(self).moved_to(*final(self), dir, now),
            forall|k: usize|
                #[trigger] final(self).pending_positions@.contains_key(k) ==> (old(
                    self,
                ).pending_positions@.contains_key(k) && final(self).pending_positions@[k] == old(
                    self,
                ).pending_positions@[k]) || (final(self).pending_positions@[k].0 >= 0
                    && final(self).pending_positions@[k].1 >= 0),
    {
        let s = self.selected_monitor;
        if s >= self.monitors.len() || !self.monitors[s].enabled {
            return;
        }
        let step = self.step_size(dir, now);
        let (cx, cy) = self.display_position(s);
        let (sw, sh) = effective_dimensions(&self.monitors[s]);
        let (cx64, cy64) = (cx as i64, cy as i64);
        let (nx, ny) = match dir {
            PositionDirection::Left => (clamp_coord_exec(cx64 - step), clamp_coord_exec(cy64)),
            PositionDirection::Right => (clamp_coord_exec(cx64 + step), clamp_coord_exec(cy64)),
            PositionDirection::Up => (clamp_coord_exec(cx64), clamp_coord_exec(cy64 - step)),
            PositionDirection::Down => (clamp_coord_exec(cx64), clamp_coord_exec(cy64 + step)),
        };
        let hit = self.first_hit(nx, ny);
        match hit {
            Some(j) => {
                let (ox, oy) = self.display_position(j);
                let (ow, oh) = effective_dimensions(&self.monitors[j]);
                let (ox, oy, ow, oh) = (ox as i64, oy as i64, ow as i64, oh as i64);
                let (sw, sh) = (sw as i64, sh as i64);
                let (mine, theirs) = match dir {
                    PositionDirection::Left => (
                        (clamp_coord_exec(ox - sw), clamp_coord_exec(cy64)),
                        (clamp_coord_exec(cx64), clamp_coord_exec(cy64)),
                    ),
                    PositionDirection::Right => (
                        (clamp_coord_exec(cx64 + ow), clamp_coord_exec(cy64)),
                        (clamp_coord_exec(cx64), clamp_coord_exec(cy64)),
                    ),
                    PositionDirection::Up => (
                        (clamp_coord_exec(cx64), clamp_coord_exec(oy - sh)),
                        (clamp_coord_exec(cx64), clamp_coord_exec(cy64)),
                    ),
                    PositionDirection::Down => (
                        (clamp_coord_exec(cx64), clamp_coord_exec(cy64 + oh)),
                        (clamp_coord_exec(cx64), clamp_coord_exec(cy64)),
                    ),
                };
                self.pending_positions.insert(s, mine);
                self.pending_positions.insert(j, theirs);
            },
            None => {
                self.pending_positions.insert(s, (nx, ny));
            },
        }
        let elapsed = if now >= self.last_move_time {
            now - self.last_move_time
        } else {
            0
        };
        self.move_repeat_count = if self.last_move_direction == Some(dir) && elapsed
            < REPEAT_WINDOW_MS {
            if self.move_repeat_count == u32::MAX {
                u32::MAX
            } else {
                self.move_repeat_count + 1
            }
        } else {
            0
        };
        self.last_move_time = now;
        self.last_move_direction = Some(dir);
    }
}




/// Index of the last pair for workspace `id` among the first `n` pairs.
pub open spec fn last_pair_for(names: Seq<(usize, String)>, id: usize, n: int) -> Option<int>
    decreases n,
{
    if n <= 0 || n > names.len() {
        None
    } else if names[n - 1].0 == id {
        Some(n - 1)
    } else {
        last_pair_for(names, id, n - 1)
    }
}

/// An assignment after the pairs read from the configuration file are
/// applied: the last pair for its id decides, naming an output by name.
pub open spec fn resolved(w: WorkspaceAssignment, names: Seq<(usize, String)>, ms: Seq<Output>) -> WorkspaceAssignment {
    match last_pair_for(names, w.id, names.len() as int) {
        Some(k) => WorkspaceAssignment {
            id: w.id,
            monitor_idx: match index_of_name(ms, names[k].1@) {
                Some(i) => Some(i as usize),
                None => None,
            },
        },
        None => w,
    }
}

/// An assignment after output `k` is removed: cleared when it pointed at
/// `k`, moved down one when it pointed past it.
pub open spec fn shifted(w: WorkspaceAssignment, k: int) -> WorkspaceAssignment {
    match w.monitor_idx {
        Some(i) => if i == k {
            WorkspaceAssignment { id: w.id, monitor_idx: None }
        } else if i > k {
            WorkspaceAssignment { id: w.id, monitor_idx: Some((i - 1) as usize) }
        } else {
            w
        },
        None => w,
    }
}

/// Workspace ids with the names of the outputs they point at.
pub open spec fn workspace_names(ws: Seq<WorkspaceAssignment>, ms: Seq<Output>) -> Seq<(usize, Option<String>)> {
    ws.map_values(
        |w: WorkspaceAssignment|
            (
                w.id,
                match w.monitor_idx {
                    Some(i) => if i < ms.len() {
                        Some(ms[i as int].name)
                    } else {
                        None
                    },
                    None => None,
                },
            ),
    )
}

/// Index of the first output named `name` (see `index_of_name`).
pub fn find_monitor(ms: &Vec<Output>, name: &String) -> (r: Option<usize>)
    ensures
        match r {
            Some(i) => index_of_name(ms@, name@) == Some(i as int) && i < ms@.len(),
            None => index_of_name(ms@, name@) is None,
        },
{
    let mut i: usize = 0;
    while i < ms.len()
        invariant
            i <= ms@.len(),
            index_of_name(ms@, name@) == index_of_name_from(ms@, name@, i as int),
        decreases ms@.len() - i,
    {
        if same_name(&ms[i].name, name) {
            return Some(i);
        }
        i = i + 1;
    }
    None
}

fn last_pair(names: &Vec<(usize, String)>, id: usize) -> (r: Option<usize>)
    ensures
        match r {
            Some(k) => last_pair_for(names@, id, names@.len() as int) == Some(k as int) && k
                < names@.len(),
            None => last_pair_for(names@, id, names@.len() as int) is None,
        },
{
    let mut n = names.len();
    while n > 0
        invariant
            n <= names@.len(),
            last_pair_for(names@, id, names@.len() as int) == last_pair_for(names@, id, n as int),
        decreases n,
    {
        if names[n - 1].0 == id {
            return Some(n - 1);
        }
        n = n - 1;
    }
    None
}

impl App {
    /// Apply the workspace pairs read at start-up, once.
    fn resolve_initial_workspaces(&mut self)
        ensures
            final(self).initial_workspace_names is None,
            final(self).workspace_assignments@.len() == old(self).workspace_assignments@.len(),
            forall|i: int|
                0 <= i < old(self).workspace_assignments@.len() ==> #[trigger] final(self).workspace_assignments@[i] == match old(self).initial_workspace_names {
                    Some(names) => resolved(
                        old(self).workspace_assignments@[i],
                        names@,
                        old(self).monitors@,
                    ),
                    None => old(self).workspace_assignments@[i],
                },
            *final(self) == (App {
                workspace_assignments: final(self).workspace_assignments,
                initial_workspace_names: None,
                ..*old(self)
            }),
    {
        let names = match self.initial_workspace_names.take() {
            Some(n) => n,
            None => return,
        };
        let mut i: usize = 0;
        while i < self.workspace_assignments.len()
            invariant
                old(self).initial_workspace_names == Some(names),
                self.initial_workspace_names is None,
                i <= self.workspace_assignments@.len(),
                self.workspace_assignments@.len() == old(self).workspace_assignments@.len(),
                forall|j: int|
                    0 <= j < i ==> #[trigger] self.workspace_assignments@[j] == resolved(
                        old(self).workspace_assignments@[j],
                        names@,
                        old(self).monitors@,
                    ),
                forall|j: int|
                    i <= j < self.workspace_assignments@.len() ==> #[trigger] self.workspace_assignments@[j]
                        == old(self).workspace_assignments@[j],
                *self == (App {
                    workspace_assignments: self.workspace_assignments,
                    initial_workspace_names: None,
                    ..*old(self)
                }),
            decreases self.workspace_assignments@.len() - i,
        {
            let w = self.workspace_assignments[i];
            if let Some(k) = last_pair(&names, w.id) {
                let idx = find_monitor(&self.monitors, &names[k].1);
                self.workspace_assignments.set(i, WorkspaceAssignment { id: w.id, monitor_idx: idx });
            }
            i = i + 1;
        }
    }

    /// Take a full snapshot of the outputs: select the first, apply the
    /// workspace pairs read at start-up, and clear stale references.
    pub fn set_monitors(&mut self, monitors: Vec<Output>)
        ensures
            final(self).monitors@ == monitors@,
            monitors@.len() > 0 ==> final(self).selected_monitor == 0,
            monitors@.len() == 0 ==> final(self).selected_monitor == old(self).selected_monitor,
            final(self).initial_workspace_names is None,
            final(self).workspace_assignments@.len() == old(self).workspace_assignments@.len(),
            forall|i: int|
                0 <= i < old(self).workspace_assignments@.len() ==> #[trigger] final(self).workspace_assignments@[i] == validated(
                    match old(self).initial_workspace_names {
                        Some(names) => resolved(
                            old(self).workspace_assignments@[i],
                            names@,
                            monitors@,
                        ),
                        None => old(self).workspace_assignments@[i],
                    },
                    monitors@.len(),
                ),
            monitors@.len() > 0 ==> {
                let m = monitors@[0];
                &&& final(self).pending_scale == m.scale
                &&& final(self).transform_selected == Some(transform_code(m.transform) as usize)
                &&& final(self).mode_selected == Some(
                    match first_current_from(m.modes@, 0) {
                        Some(i) => i as usize,
                        None => 0usize,
                    },
                )
            },
            monitors@.len() == 0 ==> {
                &&& final(self).pending_scale == old(self).pending_scale
                &&& final(self).transform_selected == old(self).transform_selected
                &&& final(self).mode_selected == old(self).mode_selected
            },
            *final(self) == (App {
                monitors: final(self).monitors,
                selected_monitor: final(self).selected_monitor,
                pending_scale: final(self).pending_scale,
                transform_selected: final(self).transform_selected,
                mode_selected: final(self).mode_selected,
                workspace_assignments: final(self).workspace_assignments,
                initial_workspace_names: None,
                ..*old(self)
            }),
    {
        self.monitors = monitors;
        if self.monitors.len() > 0 {
            self.selected_monitor = 0;
            self.mode_selected = Some(0);
            self.sync_panel_state();
        }
        self.resolve_initial_workspaces();
        self.validate_workspace_assignments();
    }

    /// Take one changed output: replace the output of the same name, or
    /// append it when the name is new.
    pub fn update_monitor(&mut self, monitor: Output)
        ensures
            final(self).monitors@ == match index_of_name(old(self).monitors@, monitor.name@) {
                Some(k) => old(self).monitors@.update(k, monitor),
                None => old(self).monitors@.push(monitor),
            },
            final(self).selected_monitor == old(self).selected_monitor,
            final(self).workspace_assignments@.len() == old(self).workspace_assignments@.len(),
            forall|i: int|
                0 <= i < old(self).workspace_assignments@.len() ==> #[trigger] final(self).workspace_assignments@[i] == validated(
                    old(self).workspace_assignments@[i],
                    final(self).monitors@.len(),
                ),
            final(self).synced_with(&App { monitors: final(self).monitors, ..*old(self) }),
            *final(self) == (App {
                monitors: final(self).monitors,
                workspace_assignments: final(self).workspace_assignments,
                pending_scale: final(self).pending_scale,
                transform_selected: final(self).transform_selected,
                mode_selected: final(self).mode_selected,
                ..*old(self)
            }),
    {
        match find_monitor(&self.monitors, &monitor.name) {
            Some(k) => {
                self.monitors.set(k, monitor);
            },
            None => {
                self.monitors.push(monitor);
            },
        }
        self.sync_panel_state();
        self.validate_workspace_assignments();
    }

    /// Drop the output named `name` when the display server reports it gone,
    /// but only while it is disabled: an enabled output stays. Removing one
    /// clears the workspaces pinned to it, renumbers those pinned past it,
    /// and drops uncommitted moves.
    pub fn remove_monitor(&mut self, name: &str)
        ensures
            ({
                match index_of_name(old(self).monitors@, name@) {
                    Some(k) => if !old(self).monitors@[k].enabled {
                        let n = (old(self).monitors@.len() - 1) as nat;
                        &&& final(self).monitors@ == old(self).monitors@.remove(k)
                        &&& final(self).workspace_assignments@.len()
                            == old(self).workspace_assignments@.len()
                        &&& forall|i: int|
                            0 <= i < old(self).workspace_assignments@.len()
                                ==> #[trigger] final(self).workspace_assignments@[i] == validated(
                                shifted(old(self).workspace_assignments@[i], k),
                                n,
                            )
                        &&& final(self).pending_positions@ == Map::<usize, (i32, i32)>::empty()
                        &&& final(self).selected_monitor == if old(self).selected_monitor >= n {
                            if n == 0 {
                                0
                            } else {
                                (n - 1) as usize
                            }
                        } else {
                            old(self).selected_monitor
                        }
                        &&& final(self).synced_with(
                            &App {
                                monitors: final(self).monitors,
                                selected_monitor: final(self).selected_monitor,
                                ..*old(self)
                            },
                        )
                        &&& *final(self) == (App {
                            monitors: final(self).monitors,
                            workspace_assignments: final(self).workspace_assignments,
                            pending_positions: final(self).pending_positions,
                            selected_monitor: final(self).selected_monitor,
                            pending_scale: final(self).pending_scale,
                            transform_selected: final(self).transform_selected,
                            mode_selected: final(self).mode_selected,
                            ..*old(self)
                        })
                    } else {
                        *final(self) == *old(self)
                    },
                    None => *final(self) == *old(self),
                }
            }),
    {
        let target = String::from_str(name);
        let k = match find_monitor(&self.monitors, &target) {
            Some(k) => k,
            None => return,
        };
        if self.monitors[k].enabled {
            return;
        }
        self.monitors.remove(k);
        let mut i: usize = 0;
        while i < self.workspace_assignments.len()
            invariant
                i <= self.workspace_assignments@.len(),
                self.workspace_assignments@.len() == old(self).workspace_assignments@.len(),
                k < old(self).monitors@.len(),
                forall|j: int|
                    0 <= j < i ==> #[trigger] self.workspace_assignments@[j] == shifted(
                        old(self).workspace_assignments@[j],
                        k as int,
                    ),
                forall|j: int|
                    i <= j < self.workspace_assignments@.len() ==> #[trigger] self.workspace_assignments@[j]
                        == old(self).workspace_assignments@[j],
                self.monitors@ == old(self).monitors@.remove(k as int),
                *self == (App {
                    monitors: self.monitors,
                    workspace_assignments: self.workspace_assignments,
                    ..*old(self)
                }),
            decreases self.workspace_assignments@.len() - i,
        {
            let w = self.workspace_assignments[i];
            if let Some(x) = w.monitor_idx {
                if x == k {
                    self.workspace_assignments.set(i, WorkspaceAssignment { id: w.id, monitor_idx: None });
                } else if x > k {
                    self.workspace_assignments.set(
                        i,
                        WorkspaceAssignment { id: w.id, monitor_idx: Some(x - 1) },
                    );
                }
            }
            i = i + 1;
        }
        self.pending_positions.clear();
        if self.selected_monitor >= self.monitors.len() {
            self.selected_monitor = if self.monitors.len() == 0 {
                0
            } else {
                self.monitors.len() - 1
            };
        }
        self.sync_panel_state();
        self.validate_workspace_assignments();
    }

    /// Whether `after` is this state once the selection moves to the next
    /// (`forward`) or previous output, wrapping around: the mode cursor goes
    /// back to the first mode and the pending scale and transform follow the
    /// new selection. Without outputs nothing changes.
    pub open spec fn selected_step(&self, after: App, forward: bool) -> bool {
        let n = self.monitors@.len();
        if n == 0 {
            after == *self
        } else {
            let sel = if forward {
                ring_next(Some(self.selected_monitor), n).unwrap()
            } else {
                ring_prev(Some(self.selected_monitor), n).unwrap()
            };
            let m = self.monitors@[sel as int];
            after == (App {
                selected_monitor: sel,
                pending_scale: m.scale,
                transform_selected: Some(transform_code(m.transform) as usize),
                mode_selected: Some(0usize),
                ..*self
            })
        }
    }

    /// Select the next output, wrapping around; the mode cursor goes back to
    /// the first mode and the pending scale and transform follow the new
    /// selection.
    pub fn select_next_monitor(&mut self)
        ensures
            old(self).selected_step(*final(self), true),
    {
        if self.monitors.len() == 0 {
            return;
        }
        self.selected_monitor = wrap_next(Some(self.selected_monitor), self.monitors.len()).unwrap();
        self.sync_panel_state();
        self.mode_selected = Some(0);
    }

    /// Select the previous output, wrapping around; the mode cursor goes back
    /// to the first mode and the pending scale and transform follow the new
    /// selection.
    pub fn select_prev_monitor(&mut self)
        ensures
            old(self).selected_step(*final(self), false),
    {
        if self.monitors.len() == 0 {
            return;
        }
        self.selected_monitor = wrap_prev(Some(self.selected_monitor), self.monitors.len()).unwrap();
        self.sync_panel_state();
        self.mode_selected = Some(0);
    }
}


impl App {
    /// Workspace assignments after cycling the selected one (see `cycled`);
    /// the same when no workspace is selected or no output is enabled.
    pub open spec fn cycled_assignments(&self, forward: bool) -> Seq<WorkspaceAssignment> {
        let en = enabled_indices(self.monitors@);
        let ws = self.workspace_assignments@;
        match self.workspace_selected {
            Some(w) => if w < ws.len() && en.len() > 0 {
                ws.update(
                    w as int,
                    WorkspaceAssignment {
                        id: ws[w as int].id,
                        monitor_idx: cycled(en, ws[w as int].monitor_idx, forward),
                    },
                )
            } else {
                ws
            },
            None => ws,
        }
    }

    /// Whether `after` and the returned text `r` are what cycling the
    /// selected workspace gives: the assignments as `cycled_assignments`
    /// gives them, and the save this makes due done at once (the text for
    /// the new assignments, `needs_save` cleared) when a file path is set.
    /// With no workspace selected or no output enabled nothing changes and
    /// no text is returned.
    pub open spec fn cycle_result(&self, after: App, r: Option<String>, forward: bool) -> bool {
        let active = match self.workspace_selected {
            Some(w) => w < self.workspace_assignments@.len() && enabled_indices(self.monitors@).len()
                > 0,
            None => false,
        };
        if !active {
            after == *self && r is None
        } else {
            let text = config_text(
                self.compositor,
                self.monitors@,
                workspace_names(self.cycled_assignments(forward), self.monitors@),
            );
            &&& after.workspace_assignments@ == self.cycled_assignments(forward)
            &&& after == (App {
                workspace_assignments: after.workspace_assignments,
                needs_save: self.monitor_config_path@.len() == 0,
                ..*self
            })
            &&& if self.monitor_config_path@.len() > 0 {
                match r {
                    Some(t) => text == Some(t@),
                    None => text is None,
                }
            } else {
                r is None
            }
        }
    }

    /// Configuration text to write now, if a save is due: `needs_save` is
    /// set and a file path is configured. The flag is cleared; an unknown
    /// compositor gives no text.
    pub fn save_config(&mut self) -> (r: Option<String>)
        ensures
            old(self).needs_save && old(self).monitor_config_path@.len() > 0 ==> {
                &&& !final(self).needs_save
                &&& match r {
                    Some(t) => config_text(
                        old(self).compositor,
                        old(self).monitors@,
                        workspace_names(old(self).workspace_assignments@, old(self).monitors@),
                    ) == Some(t@),
                    None => config_text(
                        old(self).compositor,
                        old(self).monitors@,
                        workspace_names(old(self).workspace_assignments@, old(self).monitors@),
                    ) is None,
                }
                &&& *final(self) == (App { needs_save: false, ..*old(self) })
            },
            !(old(self).needs_save && old(self).monitor_config_path@.len() > 0) ==> r is None
                && *final(self) == *old(self),
    {
        if !self.needs_save || self.monitor_config_path.as_str().unicode_len() == 0 {
            return None;
        }
        self.needs_save = false;
        let mut names: Vec<(usize, Option<String>)> = Vec::new();
        let mut i: usize = 0;
        while i < self.workspace_assignments.len()
            invariant
                i <= self.workspace_assignments@.len(),
                names@ == workspace_names(self.workspace_assignments@, self.monitors@).subrange(
                    0,
                    i as int,
                ),
            decreases self.workspace_assignments@.len() - i,
        {
            let w = self.workspace_assignments[i];
            let name = match w.monitor_idx {
                Some(k) => if k < self.monitors.len() {
                    Some(self.monitors[k].name.clone())
                } else {
                    None
                },
                None => None,
            };
            names.push((w.id, name));
            i = i + 1;
            assert(names@ =~= workspace_names(self.workspace_assignments@, self.monitors@).subrange(
                0,
                i as int,
            ));
        }
        assert(names@ =~= workspace_names(self.workspace_assignments@, self.monitors@));
        render_monitor_config(self.compositor, &self.monitors, &names)
    }

    /// Cycle the selected workspace's output through the enabled outputs
    /// (see `cycled`) and return the configuration text to write now. With
    /// no workspace selected or no output enabled nothing changes.
    pub fn cycle_workspace_monitor(&mut self, forward: bool) -> (r: Option<String>)
        ensures
            old(self).cycle_result(*final(self), r, forward),
    {
        let w = match self.workspace_selected {
            Some(w) => w,
            None => return None,
        };
        if w >= self.workspace_assignments.len() {
            return None;
        }
        let en = enabled_monitor_indices(&self.monitors);
        if en.len() == 0 {
            return None;
        }
        let a = self.workspace_assignments[w];
        let next = cycle_assignment(&en, a.monitor_idx, forward);
        self.workspace_assignments.set(w, WorkspaceAssignment { id: a.id, monitor_idx: next });
        self.needs_save = true;
        self.save_config()
    }

    /// Whether `after` is this state once the selected output is turned on
    /// or off, with `saved_config` the configuration text as it stands:
    /// turning off the last enabled output only raises the warning, unless it
    /// stands already; otherwise one toggle request goes out (with the place
    /// `enable_place` gives when turning on), a save is due and the warning
    /// is cleared. With no selection only the warning is cleared.
    pub open spec fn toggled(&self, after: App, saved_config: Seq<char>) -> bool {
        let s = self.selected_monitor;
        if s >= self.monitors@.len() {
            after == (App { pending_toggle_warning: false, ..*self })
        } else {
            let m = self.monitors@[s as int];
            if !self.pending_toggle_warning && m.enabled && enabled_from(self.monitors@, 0) == 1 {
                after == (App { pending_toggle_warning: true, ..*self })
            } else {
                &&& after.actions@ == self.actions@.push(
                    (MonitorAction::Toggle {
                        name: m.name,
                        position: if m.enabled {
                            None
                        } else {
                            Some(
                                enable_place(
                                    self.monitors@,
                                    m.name@,
                                    saved_position(self.compositor, saved_config, m.name@),
                                    toggle_size(self.monitors@, m.name@).0,
                                    toggle_size(self.monitors@, m.name@).1,
                                ),
                            )
                        },
                    }),
                )
                &&& after == (App {
                    actions: after.actions,
                    needs_save: true,
                    pending_toggle_warning: false,
                    ..*self
                })
            }
        }
    }

    /// Turn the output named `name` on or off. Turning one on sends the place
    /// it should take (see `enable_place`), from its position saved in the
    /// configuration text `saved_config`.
    pub fn perform_toggle(&mut self, name: &String, currently_enabled: bool, saved_config: &str)
        ensures
            final(self).actions@ == old(self).actions@.push(
                (MonitorAction::Toggle {
                    name: *name,
                    position: if currently_enabled {
                        None
                    } else {
                        Some(
                            enable_place(
                                old(self).monitors@,
                                name@,
                                saved_position(old(self).compositor, saved_config@, name@),
                                toggle_size(old(self).monitors@, name@).0,
                                toggle_size(old(self).monitors@, name@).1,
                            ),
                        )
                    },
                }),
            ),
            final(self).needs_save,
            *final(self) == (App { actions: final(self).actions, needs_save: true, ..*old(self) }),
    {
        let position = if !currently_enabled {
            let saved = saved_monitor_position(self.compositor, saved_config, name);
            let (w, h) = match find_monitor(&self.monitors, name) {
                Some(k) => effective_dimensions(&self.monitors[k]),
                None => (FALLBACK_WIDTH, FALLBACK_HEIGHT),
            };
            match saved {
                Some(p) => if position_overlaps(&self.monitors, name, p, (w, h)) {
                    Some(calculate_closest_non_overlapping_position(&self.monitors, name, p, (w, h)))
                } else {
                    Some(p)
                },
                None => Some(calculate_non_overlapping_position(&self.monitors, name)),
            }
        } else {
            None
        };
        self.actions.push(MonitorAction::Toggle { name: name.clone(), position });
        self.needs_save = true;
    }

    /// Turn the selected output on or off. Turning off the last enabled
    /// output first raises a warning; a second call while the warning stands
    /// goes ahead. `saved_config` is the configuration file as it stands.
    pub fn toggle_monitor(&mut self, saved_config: &str)
        ensures
            old(self).toggled(*final(self), saved_config@),
    {
        let s = self.selected_monitor;
        if self.pending_toggle_warning {
            self.pending_toggle_warning = false;
            if s >= self.monitors.len() {
                return;
            }
            let name = self.monitors[s].name.clone();
            let enabled = self.monitors[s].enabled;
            self.perform_toggle(&name, enabled, saved_config);
            return;
        }
        if s >= self.monitors.len() {
            return;
        }
        if self.monitors[s].enabled && enabled_count(&self.monitors) == 1 {
            self.pending_toggle_warning = true;
            return;
        }
        let name = self.monitors[s].name.clone();
        let enabled = self.monitors[s].enabled;
        self.perform_toggle(&name, enabled, saved_config);
    }
}

/// Size used to place the output named `name`: its footprint, or the
/// fallback size when no output has that name.
pub open spec fn toggle_size(ms: Seq<Output>, name: Seq<char>) -> (int, int) {
    match index_of_name(ms, name) {
        Some(k) => footprint(ms[k]),
        None => (FALLBACK_WIDTH as int, FALLBACK_HEIGHT as int),
    }
}


/// "Set position" requests for the outputs among the first `n` that have a
/// pending position, in index order.
pub open spec fn position_actions(ms: Seq<Output>, pending: Map<usize, (i32, i32)>, n: int) -> Seq<MonitorAction>
    decreases n,
{
    if n <= 0 || n > ms.len() {
        Seq::empty()
    } else {
        let rest = position_actions(ms, pending, n - 1);
        let k = (n - 1) as usize;
        if pending.contains_key(k) {
            rest.push(
                MonitorAction::SetPosition { name: ms[n - 1].name, x: pending[k].0, y: pending[k].1 },
            )
        } else {
            rest
        }
    }
}

impl App {
    /// The request that committing the active panel sends, if any.
    pub open spec fn commit_request(&self) -> Option<MonitorAction> {
        let s = self.selected_monitor as int;
        if !(0 <= s < self.monitors@.len()) {
            None
        } else {
            let m = self.monitors@[s];
            match self.panel {
                Panel::Modes => match self.mode_selected {
                    Some(i) => if i < m.modes@.len() {
                        Some(
                            MonitorAction::SwitchMode {
                                name: m.name,
                                width: m.modes@[i as int].width,
                                height: m.modes@[i as int].height,
                                refresh_rate: m.modes@[i as int].refresh_rate,
                            },
                        )
                    } else {
                        None
                    },
                    None => None,
                },
                Panel::Scale => Some(MonitorAction::SetScale { name: m.name, scale: self.pending_scale }),
                Panel::Transform => match self.transform_selected {
                    Some(i) => if i < TRANSFORM_COUNT {
                        Some(
                            MonitorAction::SetTransform {
                                name: m.name,
                                transform: crate::geometry::transform_of_code(i as nat),
                            },
                        )
                    } else {
                        None
                    },
                    None => None,
                },
                _ => None,
            }
        }
    }

    fn apply_positions(&mut self)
        ensures
            final(self).actions@ == old(self).actions@ + position_actions(
                old(self).monitors@,
                old(self).pending_positions@,
                old(self).monitors@.len() as int,
            ),
            *final(self) == (App { actions: final(self).actions, ..*old(self) }),
    {
        let mut i: usize = 0;
        while i < self.monitors.len()
            invariant
                i <= self.monitors@.len(),
                self.actions@ == old(self).actions@ + position_actions(
                    self.monitors@,
                    self.pending_positions@,
                    i as int,
                ),
                *self == (App { actions: self.actions, ..*old(self) }),
            decreases self.monitors@.len() - i,
        {
            match self.pending_positions.get(&i) {
                Some(p) => {
                    let (x, y) = *p;
                    let name = self.monitors[i].name.clone();
                    self.actions.push(MonitorAction::SetPosition { name, x, y });
                },
                None => {},
            }
            i = i + 1;
            assert(self.actions@ =~= old(self).actions@ + position_actions(
                self.monitors@,
                self.pending_positions@,
                i as int,
            ));
        }
    }

    fn commit_panel(&mut self)
        ensures
            final(self).actions@ == match old(self).commit_request() {
                Some(a) => old(self).actions@.push(a),
                None => old(self).actions@,
            },
            *final(self) == (App { actions: final(self).actions, ..*old(self) }),
    {
        let s = self.selected_monitor;
        if s >= self.monitors.len() {
            return;
        }
        let name = self.monitors[s].name.clone();
        match self.panel {
            Panel::Modes => {
                if let Some(i) = self.mode_selected {
                    if i < self.monitors[s].modes.len() {
                        let m = self.monitors[s].modes[i];
                        self.actions.push(
                            MonitorAction::SwitchMode {
                                name,
                                width: m.width,
                                height: m.height,
                                refresh_rate: m.refresh_rate,
                            },
                        );
                    }
                }
            },
            Panel::Scale => {
                let scale = self.pending_scale;
                self.actions.push(MonitorAction::SetScale { name, scale });
            },
            Panel::Transform => {
                if let Some(i) = self.transform_selected {
                    if i < TRANSFORM_COUNT {
                        let transform = transform_at(i);
                        self.actions.push(MonitorAction::SetTransform { name, transform });
                    }
                }
            },
            _ => {},
        }
    }

    /// Whether `after` is this state after Down (`forward`) or Up on the
    /// active panel at time `now`: the output moves down or up, the mode,
    /// transform or workspace cursor steps with wraparound (a panel with an
    /// empty list ignores it), or the scale goes one step up or down. Nothing
    /// else changes.
    pub open spec fn stepped(&self, after: App, forward: bool, now: u64) -> bool {
        let s = self.selected_monitor as int;
        let nws = self.workspace_assignments@.len();
        match self.panel {
            Panel::Layout => self.moved_to(
                after,
                if forward {
                    PositionDirection::Down
                } else {
                    PositionDirection::Up
                },
                now,
            ),
            Panel::Scale => after == (App {
                pending_scale: if forward {
                    clamp_scale(self.pending_scale + SCALE_STEP)
                } else {
                    clamp_scale(self.pending_scale - SCALE_STEP)
                },
                ..*self
            }),
            Panel::Modes => if 0 <= s < self.monitors@.len() && self.monitors@[s].modes@.len() > 0 {
                let n = self.monitors@[s].modes@.len();
                after == (App {
                    mode_selected: if forward {
                        ring_next(self.mode_selected, n)
                    } else {
                        ring_prev(self.mode_selected, n)
                    },
                    ..*self
                })
            } else {
                after == *self
            },
            Panel::Transform => after == (App {
                transform_selected: if forward {
                    ring_next(self.transform_selected, TRANSFORM_COUNT as nat)
                } else {
                    ring_prev(self.transform_selected, TRANSFORM_COUNT as nat)
                },
                ..*self
            }),
            Panel::Workspaces => if nws > 0 {
                after == (App {
                    workspace_selected: if forward {
                        ring_next(self.workspace_selected, nws)
                    } else {
                        ring_prev(self.workspace_selected, nws)
                    },
                    ..*self
                })
            } else {
                after == *self
            },
        }
    }

    /// Whether `after` and the returned text `r` are what Right (`right`) or
    /// Left on the active panel gives at time `now`: the output moves, the
    /// scale steps, or the workspace's output cycles (see `cycle_result`);
    /// the other panels ignore it.
    pub open spec fn stepped_sideways(&self, after: App, r: Option<String>, right: bool, now: u64) -> bool {
        match self.panel {
            Panel::Layout => r is None && self.moved_to(
                after,
                if right {
                    PositionDirection::Right
                } else {
                    PositionDirection::Left
                },
                now,
            ),
            Panel::Scale => r is None && after == (App {
                pending_scale: if right {
                    clamp_scale(self.pending_scale + SCALE_STEP)
                } else {
                    clamp_scale(self.pending_scale - SCALE_STEP)
                },
                ..*self
            }),
            Panel::Workspaces => self.cycle_result(after, r, right),
            _ => r is None && after == *self,
        }
    }

    /// Whether `after` and the returned text `r` are what committing the
    /// active panel gives (see `apply_action`).
    pub open spec fn applied(&self, after: App, r: Option<String>) -> bool {
        match self.panel {
            Panel::Layout => if self.pending_positions@.len() == 0 {
                after == *self && r is None
            } else {
                &&& after.actions@ == self.actions@ + position_actions(
                    self.monitors@,
                    self.pending_positions@,
                    self.monitors@.len() as int,
                )
                &&& after.pending_positions@ == Map::<usize, (i32, i32)>::empty()
                &&& after == (App {
                    actions: after.actions,
                    pending_positions: after.pending_positions,
                    needs_save: true,
                    ..*self
                })
                &&& r is None
            },
            Panel::Workspaces => self.cycle_result(after, r, true),
            _ => {
                &&& after.actions@ == match self.commit_request() {
                    Some(a) => self.actions@.push(a),
                    None => self.actions@,
                }
                &&& after == (App { actions: after.actions, needs_save: true, ..*self })
                &&& r is None
            },
        }
    }

    /// Commit the active panel: send the selected mode, the pending scale,
    /// the selected transform, or every pending position (which are then
    /// cleared); on the workspace panel, cycle forward and return the text
    /// to write now. Each commit but an empty map marks a save as due.
    pub fn apply_action(&mut self) -> (r: Option<String>)
        ensures
            old(self).applied(*final(self), r),
    {
        match self.panel {
            Panel::Layout => {
                if self.pending_positions.is_empty() {
                    return None;
                }
                self.apply_positions();
                self.pending_positions.clear();
            },
            Panel::Workspaces => {
                return self.cycle_workspace_monitor(true);
            },
            _ => {
                self.commit_panel();
            },
        }
        self.needs_save = true;
        None
    }

    /// Down on the active panel: move the output down, step the mode,
    /// transform or workspace cursor forward, or raise the scale.
    pub fn next(&mut self, now: u64)
        ensures
            old(self).stepped(*final(self), true, now),
    {
        match self.panel {
            Panel::Modes => {
                let s = self.selected_monitor;
                if s < self.monitors.len() && self.monitors[s].modes.len() > 0 {
                    self.mode_selected = wrap_next(self.mode_selected, self.monitors[s].modes.len());
                }
            },
            Panel::Layout => self.move_monitor(PositionDirection::Down, now),
            Panel::Scale => self.scale_up(),
            Panel::Transform => {
                self.transform_selected = wrap_next(self.transform_selected, TRANSFORM_COUNT);
            },
            Panel::Workspaces => {
                if self.workspace_assignments.len() > 0 {
                    self.workspace_selected = wrap_next(
                        self.workspace_selected,
                        self.workspace_assignments.len(),
                    );
                }
            },
        }
    }

    /// Up on the active panel: move the output up, step the mode, transform
    /// or workspace cursor back, or lower the scale.
    pub fn previous(&mut self, now: u64)
        ensures
            old(self).stepped(*final(self), false, now),
    {
        match self.panel {
            Panel::Modes => {
                let s = self.selected_monitor;
                if s < self.monitors.len() && self.monitors[s].modes.len() > 0 {
                    self.mode_selected = wrap_prev(self.mode_selected, self.monitors[s].modes.len());
                }
            },
            Panel::Layout => self.move_monitor(PositionDirection::Up, now),
            Panel::Scale => self.scale_down(),
            Panel::Transform => {
                self.transform_selected = wrap_prev(self.transform_selected, TRANSFORM_COUNT);
            },
            Panel::Workspaces => {
                if self.workspace_assignments.len() > 0 {
                    self.workspace_selected = wrap_prev(
                        self.workspace_selected,
                        self.workspace_assignments.len(),
                    );
                }
            },
        }
    }

    /// Left on the active panel: move the output left, lower the scale, or
    /// cycle the workspace's output backward (returning the text to write
    /// now). Other panels ignore it.
    pub fn nav_left(&mut self, now: u64) -> (r: Option<String>)
        ensures
            old(self).stepped_sideways(*final(self), r, false, now),
    {
        match self.panel {
            Panel::Layout => {
                self.move_monitor(PositionDirection::Left, now);
                None
            },
            Panel::Scale => {
                self.scale_down();
                None
            },
            Panel::Workspaces => self.cycle_workspace_monitor(false),
            _ => None,
        }
    }

    /// Right on the active panel: move the output right, raise the scale,
    /// or cycle the workspace's output forward (returning the text to write
    /// now). Other panels ignore it.
    pub fn nav_right(&mut self, now: u64) -> (r: Option<String>)
        ensures
            old(self).stepped_sideways(*final(self), r, true, now),
    {
        match self.panel {
            Panel::Layout => {
                self.move_monitor(PositionDirection::Right, now);
                None
            },
            Panel::Scale => {
                self.scale_up();
                None
            },
            Panel::Workspaces => self.cycle_workspace_monitor(true),
            _ => None,
        }
    }
}



/// Stepping a cursor back undoes stepping it forward, on a cursor that
/// points into its list.
pub proof fn lemma_ring_prev_undoes_next(i: usize, len: nat)
    requires
        i < len <= usize::MAX,
    ensures
        ring_prev(ring_next(Some(i), len), len) == Some(i),
{
    if i + 1 < len {
        assert(ring_next(Some(i), len) == Some((i + 1) as usize));
    } else {
        assert(ring_next(Some(i), len) == Some(0usize));
    }
}

/// On the mode, transform and workspace panels, Up right after Down puts
/// the state back as it was, when the panel's cursor points into its list
/// (whose length, as that of any `Vec`, fits in `usize`).
pub proof fn lemma_previous_undoes_next(a: App, b: App, c: App, t1: u64, t2: u64)
    requires
        a.panel == Panel::Modes || a.panel == Panel::Transform || a.panel == Panel::Workspaces,
        a.panel == Panel::Modes ==> a.selected_monitor < a.monitors@.len() && match a.mode_selected {
            Some(i) => i < a.monitors@[a.selected_monitor as int].modes@.len(),
            None => false,
        },
        a.panel == Panel::Transform ==> match a.transform_selected {
            Some(i) => i < TRANSFORM_COUNT,
            None => false,
        },
        a.panel == Panel::Workspaces ==> match a.workspace_selected {
            Some(i) => i < a.workspace_assignments@.len(),
            None => false,
        },
        a.panel == Panel::Modes ==> a.monitors@[a.selected_monitor as int].modes@.len() <= usize::MAX,
        a.workspace_assignments@.len() <= usize::MAX,
        a.stepped(b, true, t1),
        b.stepped(c, false, t2),
    ensures
        c == a,
{
    let s = a.selected_monitor as int;
    if a.panel == Panel::Modes {
        let n = a.monitors@[s].modes@.len();
        lemma_ring_prev_undoes_next(a.mode_selected.unwrap(), n);
    } else if a.panel == Panel::Transform {
        lemma_ring_prev_undoes_next(a.transform_selected.unwrap(), TRANSFORM_COUNT as nat);
    } else {
        lemma_ring_prev_undoes_next(a.workspace_selected.unwrap(), a.workspace_assignments@.len());
    }
}


/// Map zoom after zooming in one step.
pub open spec fn zoomed_in(z: u32) -> u32 {
    if z >= MAX_ZOOM {
        MAX_ZOOM
    } else {
        (z + 1) as u32
    }
}

/// Map zoom after zooming out one step.
pub open spec fn zoomed_out(z: u32) -> u32 {
    if z <= MIN_ZOOM {
        MIN_ZOOM
    } else {
        (z - 1) as u32
    }
}

impl App {
    /// Whether `after` and `out` are what key `key` gives at time `now`, with
    /// `saved_config` the configuration text as it stands. While the
    /// last-output warning stands, `Confirm` goes ahead with the toggle and
    /// any other key dismisses it. Otherwise: Up and Down step the active
    /// panel, Left and Right step it sideways, Enter commits it, `+` and `-`
    /// zoom the map on the layout panel and change the scale elsewhere, and
    /// the rest act as their names say.
    pub open spec fn key_result(
        &self,
        after: App,
        out: KeyOutcome,
        key: Key,
        now: u64,
        saved_config: Seq<char>,
    ) -> bool {
        let go_on = out == KeyOutcome::Continue(None);
        if self.pending_toggle_warning {
            go_on && if key == Key::Confirm {
                self.toggled(after, saved_config)
            } else {
                after == (App { pending_toggle_warning: false, ..*self })
            }
        } else {
            match key {
                Key::Quit => out == KeyOutcome::Quit && after == *self,
                Key::Up => go_on && self.stepped(after, false, now),
                Key::Down => go_on && self.stepped(after, true, now),
                Key::Left => match out {
                    KeyOutcome::Continue(t) => self.stepped_sideways(after, t, false, now),
                    KeyOutcome::Quit => false,
                },
                Key::Right => match out {
                    KeyOutcome::Continue(t) => self.stepped_sideways(after, t, true, now),
                    KeyOutcome::Quit => false,
                },
                Key::NextPanel => go_on && after == (App { panel: next_panel(self.panel), ..*self }),
                Key::Toggle => go_on && self.toggled(after, saved_config),
                Key::Reset => go_on && after.pending_positions@ == Map::<usize, (i32, i32)>::empty()
                    && after == (App { pending_positions: after.pending_positions, ..*self }),
                Key::NextOutput => go_on && self.selected_step(after, true),
                Key::PrevOutput => go_on && self.selected_step(after, false),
                Key::Plus => go_on && if self.panel == Panel::Layout {
                    after == (App { map_zoom: zoomed_in(self.map_zoom), ..*self })
                } else {
                    after == (App {
                        pending_scale: clamp_scale(self.pending_scale + SCALE_STEP),
                        ..*self
                    })
                },
                Key::Minus => go_on && if self.panel == Panel::Layout {
                    after == (App { map_zoom: zoomed_out(self.map_zoom), ..*self })
                } else {
                    after == (App {
                        pending_scale: clamp_scale(self.pending_scale - SCALE_STEP),
                        ..*self
                    })
                },
                Key::Enter => match out {
                    KeyOutcome::Continue(t) => self.applied(after, t),
                    KeyOutcome::Quit => false,
                },
                _ => go_on && after == *self,
            }
        }
    }

    /// Act on one key press at time `now` (see `key_result`);
    /// `saved_config` is the configuration file as it stands.
    pub fn handle_key(&mut self, key: Key, now: u64, saved_config: &str) -> (out: KeyOutcome)
        ensures
            old(self).key_result(*final(self), out, key, now, saved_config@),
    {
        if self.pending_toggle_warning {
            if key == Key::Confirm {
                self.toggle_monitor(saved_config);
            } else {
                self.dismiss_warning();
            }
            return KeyOutcome::Continue(None);
        }
        match key {
            Key::Quit => KeyOutcome::Quit,
            Key::Up => {
                self.previous(now);
                KeyOutcome::Continue(None)
            },
            Key::Down => {
                self.next(now);
                KeyOutcome::Continue(None)
            },
            Key::Left => KeyOutcome::Continue(self.nav_left(now)),
            Key::Right => KeyOutcome::Continue(self.nav_right(now)),
            Key::NextPanel => {
                self.toggle_panel();
                KeyOutcome::Continue(None)
            },
            Key::Toggle => {
                self.toggle_monitor(saved_config);
                KeyOutcome::Continue(None)
            },
            Key::Reset => {
                self.reset_positions();
                KeyOutcome::Continue(None)
            },
            Key::NextOutput => {
                self.select_next_monitor();
                KeyOutcome::Continue(None)
            },
            Key::PrevOutput => {
                self.select_prev_monitor();
                KeyOutcome::Continue(None)
            },
            Key::Plus => {
                if self.panel == Panel::Layout {
                    self.zoom_in();
                } else {
                    self.scale_up();
                }
                KeyOutcome::Continue(None)
            },
            Key::Minus => {
                if self.panel == Panel::Layout {
                    self.zoom_out();
                } else {
                    self.scale_down();
                }
                KeyOutcome::Continue(None)
            },
            Key::Enter => KeyOutcome::Continue(self.apply_action()),
            _ => KeyOutcome::Continue(None),
        }
    }
}

} // verus!
