use vstd::prelude::*;

verus! {

/// One of the eight discrete output orientations.
#[derive(Clone, Copy, Debug, PartialEq, Eq, Structural)]
pub enum Transform {
    Normal,
    Rotate90,
    Rotate180,
    Rotate270,
    Flipped,
    Flipped90,
    Flipped180,
    Flipped270,
}

/// Position of a transform in declaration order (0 to 7).
pub open spec fn transform_code(t: Transform) -> nat {
    match t {
        Transform::Normal => 0,
        Transform::Rotate90 => 1,
        Transform::Rotate180 => 2,
        Transform::Rotate270 => 3,
        Transform::Flipped => 4,
        Transform::Flipped90 => 5,
        Transform::Flipped180 => 6,
        Transform::Flipped270 => 7,
    }
}

/// Transform at a position of the declaration order.
pub open spec fn transform_of_code(i: nat) -> Transform {
    if i == 0 {
        Transform::Normal
    } else if i == 1 {
        Transform::Rotate90
    } else if i == 2 {
        Transform::Rotate180
    } else if i == 3 {
        Transform::Rotate270
    } else if i == 4 {
        Transform::Flipped
    } else if i == 5 {
        Transform::Flipped90
    } else if i == 6 {
        Transform::Flipped180
    } else {
        Transform::Flipped270
    }
}

/// Number of transforms.
pub const TRANSFORM_COUNT: usize = 8;

/// Whether the transform turns the output by a quarter (width and height swap).
pub open spec fn swaps_axes(t: Transform) -> bool {
    t == Transform::Rotate90 || t == Transform::Rotate270 || t == Transform::Flipped90
        || t == Transform::Flipped270
}

/// Index of `t` in declaration order.
pub fn transform_index(t: Transform) -> (r: usize)
    ensures
        r as nat == transform_code(t),
        r < TRANSFORM_COUNT,
        transform_of_code(r as nat) == t,
{
    match t {
        Transform::Normal => 0,
        Transform::Rotate90 => 1,
        Transform::Rotate180 => 2,
        Transform::Rotate270 => 3,
        Transform::Flipped => 4,
        Transform::Flipped90 => 5,
        Transform::Flipped180 => 6,
        Transform::Flipped270 => 7,
    }
}

/// Transform at index `i` of declaration order.
pub fn transform_at(i: usize) -> (t: Transform)
    requires
        i < TRANSFORM_COUNT,
    ensures
        t == transform_of_code(i as nat),
        transform_code(t) == i as nat,
{
    if i == 0 {
        Transform::Normal
    } else if i == 1 {
        Transform::Rotate90
    } else if i == 2 {
        Transform::Rotate180
    } else if i == 3 {
        Transform::Rotate270
    } else if i == 4 {
        Transform::Flipped
    } else if i == 5 {
        Transform::Flipped90
    } else if i == 6 {
        Transform::Flipped180
    } else {
        Transform::Flipped270
    }
}

/// Human label of a transform.
pub fn transform_label(t: Transform) -> (r: &'static str)
    ensures
        t == Transform::Normal ==> r@ == "Normal"@,
        t == Transform::Rotate90 ==> r@ == "Rotate 90"@,
        t == Transform::Rotate180 ==> r@ == "Rotate 180"@,
        t == Transform::Rotate270 ==> r@ == "Rotate 270"@,
        t == Transform::Flipped ==> r@ == "Flipped"@,
        t == Transform::Flipped90 ==> r@ == "Flipped 90"@,
        t == Transform::Flipped180 ==> r@ == "Flipped 180"@,
        t == Transform::Flipped270 ==> r@ == "Flipped 270"@,
{
    match t {
        Transform::Normal => "Normal",
        Transform::Rotate90 => "Rotate 90",
        Transform::Rotate180 => "Rotate 180",
        Transform::Rotate270 => "Rotate 270",
        Transform::Flipped => "Flipped",
        Transform::Flipped90 => "Flipped 90",
        Transform::Flipped180 => "Flipped 180",
        Transform::Flipped270 => "Flipped 270",
    }
}

/// A display mode: resolution, refresh rate and flags.
#[derive(Clone, Copy, Debug, PartialEq, Eq, Structural)]
pub struct OutputMode {
    pub width: i32,
    pub height: i32,
    pub refresh_rate: i32,
    pub preferred: bool,
    pub is_current: bool,
}

/// A physical display as the compositor reports it.
/// `scale` is in hundredths (100 is a scale of 1).
#[derive(Clone, Debug)]
pub struct Output {
    pub name: String,
    pub description: String,
    pub make: String,
    pub model: String,
    pub modes: Vec<OutputMode>,
    pub width: i32,
    pub height: i32,
    pub x: i32,
    pub y: i32,
    pub scale: u32,
    pub transform: Transform,
    pub enabled: bool,
}

/// Index of the first current mode at or after `i`.
pub open spec fn first_current_from(ms: Seq<OutputMode>, i: int) -> Option<int>
    decreases ms.len() - i,
{
    if i < 0 || i >= ms.len() {
        None
    } else if ms[i].is_current {
        Some(i)
    } else {
        first_current_from(ms, i + 1)
    }
}

/// Index of the first preferred mode at or after `i`.
pub open spec fn first_preferred_from(ms: Seq<OutputMode>, i: int) -> Option<int>
    decreases ms.len() - i,
{
    if i < 0 || i >= ms.len() {
        None
    } else if ms[i].preferred {
        Some(i)
    } else {
        first_preferred_from(ms, i + 1)
    }
}

/// The mode an output runs: the first current one, else the first preferred,
/// else the first listed; `None` when it lists no mode.
pub open spec fn active_mode_index(ms: Seq<OutputMode>) -> Option<int> {
    match first_current_from(ms, 0) {
        Some(i) => Some(i),
        None => match first_preferred_from(ms, 0) {
            Some(i) => Some(i),
            None => if ms.len() > 0 {
                Some(0)
            } else {
                None
            },
        },
    }
}

/// Resolution of an output: that of its active mode, else its own fields.
pub open spec fn resolution_of(o: Output) -> (int, int) {
    match active_mode_index(o.modes@) {
        Some(i) => (o.modes@[i].width as int, o.modes@[i].height as int),
        None => (o.width as int, o.height as int),
    }
}

/// Footprint of an output in the shared space: its resolution, with width and
/// height swapped by a quarter turn.
pub open spec fn footprint(o: Output) -> (int, int) {
    let (w, h) = resolution_of(o);
    if swaps_axes(o.transform) {
        (h, w)
    } else {
        (w, h)
    }
}

/// Whether two axis-aligned rectangles share an area.
pub open spec fn rects_overlap(
    x1: int,
    y1: int,
    w1: int,
    h1: int,
    x2: int,
    y2: int,
    w2: int,
    h2: int,
) -> bool {
    x1 < x2 + w2 && x1 + w1 > x2 && y1 < y2 + h2 && y1 + h1 > y2
}

/// Index of the first mode marked current.
pub fn find_current_mode(ms: &Vec<OutputMode>) -> (r: Option<usize>)
    ensures
        match r {
            Some(i) => first_current_from(ms@, 0) == Some(i as int) && i < ms@.len(),
            None => first_current_from(ms@, 0) is None,
        },
{
    let mut i: usize = 0;
    while i < ms.len()
        invariant
            i <= ms.len(),
            first_current_from(ms@, 0) == first_current_from(ms@, i as int),
        decreases ms.len() - i,
    {
        if ms[i].is_current {
            return Some(i);
        }
        i = i + 1;
    }
    None
}

fn find_preferred_mode(ms: &Vec<OutputMode>) -> (r: Option<usize>)
    ensures
        match r {
            Some(i) => first_preferred_from(ms@, 0) == Some(i as int) && i < ms@.len(),
            None => first_preferred_from(ms@, 0) is None,
        },
{
    let mut i: usize = 0;
    while i < ms.len()
        invariant
            i <= ms.len(),
            first_preferred_from(ms@, 0) == first_preferred_from(ms@, i as int),
        decreases ms.len() - i,
    {
        if ms[i].preferred {
            return Some(i);
        }
        i = i + 1;
    }
    None
}

/// Resolution of an output (see `resolution_of`).
pub fn monitor_resolution(o: &Output) -> (r: (i32, i32))
    ensures
        (r.0 as int, r.1 as int) == resolution_of(*o),
{
    if let Some(i) = find_current_mode(&o.modes) {
        return (o.modes[i].width, o.modes[i].height);
    }
    if let Some(i) = find_preferred_mode(&o.modes) {
        return (o.modes[i].width, o.modes[i].height);
    }
    if o.modes.len() > 0 {
        return (o.modes[0].width, o.modes[0].height);
    }
    (o.width, o.height)
}

/// Footprint of an output (see `footprint`).
pub fn effective_dimensions(o: &Output) -> (r: (i32, i32))
    ensures
        (r.0 as int, r.1 as int) == footprint(*o),
{
    let (w, h) = monitor_resolution(o);
    match o.transform {
        Transform::Rotate90 | Transform::Rotate270 | Transform::Flipped90
        | Transform::Flipped270 => (h, w),
        _ => (w, h),
    }
}

/// Whether two rectangles given in `i32` share an area.
pub fn rects_intersect(
    x1: i32,
    y1: i32,
    w1: i32,
    h1: i32,
    x2: i32,
    y2: i32,
    w2: i32,
    h2: i32,
) -> (r: bool)
    ensures
        r == rects_overlap(
            x1 as int,
            y1 as int,
            w1 as int,
            h1 as int,
            x2 as int,
            y2 as int,
            w2 as int,
            h2 as int,
        ),
{
    let (ax, ay, aw, ah) = (x1 as i64, y1 as i64, w1 as i64, h1 as i64);
    let (bx, by, bw, bh) = (x2 as i64, y2 as i64, w2 as i64, h2 as i64);
    ax < bx + bw && ax + aw > bx && ay < by + bh && ay + ah > by
}

} // verus!
