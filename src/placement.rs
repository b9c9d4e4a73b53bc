use vstd::prelude::*;

use crate::geometry::{Output, effective_dimensions, footprint, rects_intersect, rects_overlap};

verus! {

/// Saturate to the `i32` range.
pub open spec fn sat_i32(v: int) -> i32 {
    if v < i32::MIN {
        i32::MIN
    } else if v > i32::MAX {
        i32::MAX
    } else {
        v as i32
    }
}

fn sat_i32_exec(v: i64) -> (r: i32)
    ensures
        r == sat_i32(v as int),
{
    if v < i32::MIN as i64 {
        i32::MIN
    } else if v > i32::MAX as i64 {
        i32::MAX
    } else {
        v as i32
    }
}

/// Manhattan distance between two points.
pub open spec fn manhattan(a: (i32, i32), b: (i32, i32)) -> int {
    let dx = a.0 as int - b.0 as int;
    let dy = a.1 as int - b.1 as int;
    (if dx < 0 {
        -dx
    } else {
        dx
    }) + (if dy < 0 {
        -dy
    } else {
        dy
    })
}

/// A side of output `o`: 0 its left edge, 1 its right edge, 2 its top, 3 its bottom.
pub open spec fn edge_value(o: Output, side: nat) -> int {
    if side == 0 {
        o.x as int
    } else if side == 1 {
        o.x as int + footprint(o).0
    } else if side == 2 {
        o.y as int
    } else {
        o.y as int + footprint(o).1
    }
}

/// Whether output `o` counts as an obstacle for the output named `exclude`.
pub open spec fn is_obstacle(o: Output, exclude: Seq<char>) -> bool {
    o.enabled && o.name@ != exclude
}

/// Extreme `edge_value` over the obstacles at index `i` and after: the
/// smallest for sides 0 and 2 (left and top edges), the largest for sides 1
/// and 3 (right and bottom edges).
pub open spec fn extreme_from(ms: Seq<Output>, exclude: Seq<char>, side: nat, i: int) -> Option<
    int,
>
    decreases ms.len() - i,
{
    if i < 0 || i >= ms.len() {
        None
    } else {
        let rest = extreme_from(ms, exclude, side, i + 1);
        if !is_obstacle(ms[i], exclude) {
            rest
        } else {
            let v = edge_value(ms[i], side);
            match rest {
                None => Some(v),
                Some(r) => Some(
                    if side == 0 || side == 2 {
                        if v <= r {
                            v
                        } else {
                            r
                        }
                    } else {
                        if v >= r {
                            v
                        } else {
                            r
                        }
                    },
                ),
            }
        }
    }
}

/// Whether a `w` by `h` rectangle at `(x, y)` overlaps an obstacle (by its
/// committed position) at index `i` or after.
pub open spec fn overlaps_from(
    ms: Seq<Output>,
    exclude: Seq<char>,
    x: int,
    y: int,
    w: int,
    h: int,
    i: int,
) -> bool
    decreases ms.len() - i,
{
    if i < 0 || i >= ms.len() {
        false
    } else {
        (is_obstacle(ms[i], exclude) && rects_overlap(
            x,
            y,
            w,
            h,
            ms[i].x as int,
            ms[i].y as int,
            footprint(ms[i]).0,
            footprint(ms[i]).1,
        )) || overlaps_from(ms, exclude, x, y, w, h, i + 1)
    }
}

/// The four probe positions flush against the obstacles' bounding box: left
/// of the leftmost, right of the rightmost, above the topmost, below the
/// bottommost.
pub open spec fn probes(ms: Seq<Output>, exclude: Seq<char>, w: int, h: int) -> Seq<(i32, i32)> {
    let left = extreme_from(ms, exclude, 0, 0).unwrap_or(0);
    let right = extreme_from(ms, exclude, 1, 0).unwrap_or(0);
    let top = extreme_from(ms, exclude, 2, 0).unwrap_or(0);
    let bottom = extreme_from(ms, exclude, 3, 0).unwrap_or(0);
    seq![
        (sat_i32(left - w), 0i32),
        (sat_i32(right), 0i32),
        (0i32, sat_i32(top - h)),
        (0i32, sat_i32(bottom)),
    ]
}

/// Index of the free candidate at `i` or after that is closest to `pref`,
/// the first one on a tie.
pub open spec fn closest_free_from(
    ms: Seq<Output>,
    exclude: Seq<char>,
    cands: Seq<(i32, i32)>,
    w: int,
    h: int,
    pref: (i32, i32),
    i: int,
) -> Option<int>
    decreases cands.len() - i,
{
    if i < 0 || i >= cands.len() {
        None
    } else {
        let rest = closest_free_from(ms, exclude, cands, w, h, pref, i + 1);
        if overlaps_from(ms, exclude, cands[i].0 as int, cands[i].1 as int, w, h, 0) {
            rest
        } else {
            match rest {
                None => Some(i),
                Some(r) => if manhattan(cands[i], pref) <= manhattan(cands[r], pref) {
                    Some(i)
                } else {
                    Some(r)
                },
            }
        }
    }
}

/// Where an output named `exclude` of size `w` by `h` goes when its saved
/// position `pref` is taken: the closest free probe, else right of the
/// rightmost obstacle; `pref` itself when there is no obstacle.
pub open spec fn relocated(ms: Seq<Output>, exclude: Seq<char>, pref: (i32, i32), w: int, h: int) -> (
    i32,
    i32,
) {
    match extreme_from(ms, exclude, 1, 0) {
        None => pref,
        Some(right) => match closest_free_from(ms, exclude, probes(ms, exclude, w, h), w, h, pref, 0) {
            Some(k) => probes(ms, exclude, w, h)[k],
            None => (sat_i32(right), 0i32),
        },
    }
}

/// Default place for an output named `exclude` with no saved position:
/// right of the rightmost obstacle at height 0, or the origin.
pub open spec fn default_place(ms: Seq<Output>, exclude: Seq<char>) -> (i32, i32) {
    match extreme_from(ms, exclude, 1, 0) {
        None => (0i32, 0i32),
        Some(right) => (sat_i32(right), 0i32),
    }
}

/// Where an output named `name` of size `w` by `h` is placed when it is
/// turned on, given its saved position.
pub open spec fn enable_place(
    ms: Seq<Output>,
    name: Seq<char>,
    saved: Option<(i32, i32)>,
    w: int,
    h: int,
) -> (i32, i32) {
    match saved {
        Some(p) => if overlaps_from(ms, name, p.0 as int, p.1 as int, w, h, 0) {
            relocated(ms, name, p, w, h)
        } else {
            p
        },
        None => default_place(ms, name),
    }
}

/// Number of enabled outputs at index `i` or after.
pub open spec fn enabled_from(ms: Seq<Output>, i: int) -> nat
    decreases ms.len() - i,
{
    if i < 0 || i >= ms.len() {
        0
    } else {
        (if ms[i].enabled {
            1nat
        } else {
            0nat
        }) + enabled_from(ms, i + 1)
    }
}

fn edge_value_exec(o: &Output, side: u8) -> (r: i64)
    requires
        side < 4,
    ensures
        r as int == edge_value(*o, side as nat),
        2 * (i32::MIN as int) <= r <= 2 * (i32::MAX as int),
{
    let (w, h) = effective_dimensions(o);
    if side == 0 {
        o.x as i64
    } else if side == 1 {
        o.x as i64 + w as i64
    } else if side == 2 {
        o.y as i64
    } else {
        o.y as i64 + h as i64
    }
}

/// Whether two names are equal.
pub fn same_name(a: &String, b: &String) -> (r: bool)
    ensures
        r == (a@ == b@),
{
    *a == *b
}

fn extreme(ms: &Vec<Output>, exclude: &String, side: u8) -> (r: Option<i64>)
    requires
        side < 4,
    ensures
        match r {
            Some(v) => extreme_from(ms@, exclude@, side as nat, 0) == Some(v as int) && 2 * (
                i32::MIN as int) <= v <= 2 * (i32::MAX as int),
            None => extreme_from(ms@, exclude@, side as nat, 0) is None,
        },
{
    let mut best: Option<i64> = None;
    let mut i: usize = ms.len();
    while i > 0
        invariant
            i <= ms@.len(),
            side < 4,
            match best {
                Some(v) => extreme_from(ms@, exclude@, side as nat, i as int) == Some(v as int)
                    && 2 * (i32::MIN as int) <= v <= 2 * (i32::MAX as int),
                None => extreme_from(ms@, exclude@, side as nat, i as int) is None,
            },
        decreases i,
    {
        i = i - 1;
        if ms[i].enabled && !same_name(&ms[i].name, exclude) {
            let v = edge_value_exec(&ms[i], side);
            best = match best {
                None => Some(v),
                Some(r) => Some(
                    if side == 0 || side == 2 {
                        if v <= r {
                            v
                        } else {
                            r
                        }
                    } else {
                        if v >= r {
                            v
                        } else {
                            r
                        }
                    },
                ),
            };
        }
    }
    best
}

fn overlaps_any(ms: &Vec<Output>, exclude: &String, x: i32, y: i32, w: i32, h: i32) -> (r: bool)
    ensures
        r == overlaps_from(ms@, exclude@, x as int, y as int, w as int, h as int, 0),
{
    let mut i: usize = ms.len();
    let mut found = false;
    while i > 0
        invariant
            i <= ms@.len(),
            found == overlaps_from(ms@, exclude@, x as int, y as int, w as int, h as int, i as int),
        decreases i,
    {
        i = i - 1;
        let (mw, mh) = effective_dimensions(&ms[i]);
        let hit = ms[i].enabled && !same_name(&ms[i].name, exclude) && rects_intersect(
            x,
            y,
            w,
            h,
            ms[i].x,
            ms[i].y,
            mw,
            mh,
        );
        found = hit || found;
    }
    found
}

/// The closest free probe position (see `relocated`).
pub fn calculate_closest_non_overlapping_position(
    ms: &Vec<Output>,
    exclude: &String,
    preferred: (i32, i32),
    size: (i32, i32),
) -> (r: (i32, i32))
    ensures
        r == relocated(ms@, exclude@, preferred, size.0 as int, size.1 as int),
        ({
            let c = probes(ms@, exclude@, size.0 as int, size.1 as int);
            let right = extreme_from(ms@, exclude@, 1, 0);
            right is Some && i32::MIN <= right.unwrap() <= i32::MAX ==> exists|k: int|
                0 <= k < 4 && r == #[trigger] c[k] && !overlaps_from(
                    ms@,
                    exclude@,
                    r.0 as int,
                    r.1 as int,
                    size.0 as int,
                    size.1 as int,
                    0,
                ) && forall|j: int|
                    0 <= j < 4 && !overlaps_from(
                        ms@,
                        exclude@,
                        (#[trigger] c[j]).0 as int,
                        c[j].1 as int,
                        size.0 as int,
                        size.1 as int,
                        0,
                    ) ==> manhattan(r, preferred) <= manhattan(c[j], preferred)
        }),
{
    proof {
        let right = extreme_from(ms@, exclude@, 1, 0);
        if right is Some && i32::MIN <= right.unwrap() <= i32::MAX {
            lemma_relocated_is_closest_free_probe(ms@, exclude@, preferred, size.0 as int, size.1 as int);
        }
    }
    let (w, h) = size;
    let right = match extreme(ms, exclude, 1) {
        None => return preferred,
        Some(v) => v,
    };
    let left = match extreme(ms, exclude, 0) {
        Some(v) => v,
        None => 0,
    };
    let top = match extreme(ms, exclude, 2) {
        Some(v) => v,
        None => 0,
    };
    let bottom = match extreme(ms, exclude, 3) {
        Some(v) => v,
        None => 0,
    };
    let mut cands: Vec<(i32, i32)> = Vec::new();
    cands.push((sat_i32_exec(left - w as i64), 0));
    cands.push((sat_i32_exec(right), 0));
    cands.push((0, sat_i32_exec(top - h as i64)));
    cands.push((0, sat_i32_exec(bottom)));
    let ghost all = probes(ms@, exclude@, w as int, h as int);
    assert(cands@ =~= all);
    let mut best: Option<usize> = None;
    let mut i: usize = 4;
    while i > 0
        invariant
            i <= 4,
            cands@ == all,
            all.len() == 4,
            match best {
                Some(k) => closest_free_from(ms@, exclude@, all, w as int, h as int, preferred, i as int)
                    == Some(k as int) && k < 4,
                None => closest_free_from(ms@, exclude@, all, w as int, h as int, preferred, i as int) is None,
            },
        decreases i,
    {
        i = i - 1;
        let c = cands[i];
        if !overlaps_any(ms, exclude, c.0, c.1, w, h) {
            best = match best {
                None => Some(i),
                Some(k) => if distance(c, preferred) <= distance(cands[k], preferred) {
                    Some(i)
                } else {
                    Some(k)
                },
            };
        }
    }
    match best {
        Some(k) => cands[k],
        None => (sat_i32_exec(right), 0),
    }
}

fn distance(a: (i32, i32), b: (i32, i32)) -> (r: i64)
    ensures
        r as int == manhattan(a, b),
{
    let dx = a.0 as i64 - b.0 as i64;
    let dy = a.1 as i64 - b.1 as i64;
    (if dx < 0 { -dx } else { dx }) + (if dy < 0 { -dy } else { dy })
}

/// Default place for an output with no saved position (see `default_place`).
pub fn calculate_non_overlapping_position(ms: &Vec<Output>, exclude: &String) -> (r: (i32, i32))
    ensures
        r == default_place(ms@, exclude@),
{
    match extreme(ms, exclude, 1) {
        None => (0, 0),
        Some(right) => (sat_i32_exec(right), 0),
    }
}

/// Whether a rectangle overlaps an enabled output other than `exclude`.
pub fn position_overlaps(
    ms: &Vec<Output>,
    exclude: &String,
    pos: (i32, i32),
    size: (i32, i32),
) -> (r: bool)
    ensures
        r == overlaps_from(ms@, exclude@, pos.0 as int, pos.1 as int, size.0 as int, size.1 as int, 0),
{
    overlaps_any(ms, exclude, pos.0, pos.1, size.0, size.1)
}

/// Number of enabled outputs.
pub fn enabled_count(ms: &Vec<Output>) -> (r: usize)
    ensures
        r as nat == enabled_from(ms@, 0),
{
    let mut i: usize = ms.len();
    let mut n: usize = 0;
    while i > 0
        invariant
            i <= ms@.len(),
            n as nat == enabled_from(ms@, i as int),
            n <= ms@.len() - i,
            ms@.len() <= usize::MAX,
        decreases i,
    {
        i = i - 1;
        if ms[i].enabled {
            n = n + 1;
        }
    }
    n
}

/// Some obstacle exists once a rectangle overlaps one.
proof fn lemma_overlap_has_obstacle(
    ms: Seq<Output>,
    exclude: Seq<char>,
    x: int,
    y: int,
    w: int,
    h: int,
    i: int,
)
    requires
        overlaps_from(ms, exclude, x, y, w, h, i),
    ensures
        extreme_from(ms, exclude, 1, i) is Some,
    decreases ms.len() - i,
{
    if 0 <= i < ms.len() && !(is_obstacle(ms[i], exclude) && rects_overlap(
        x,
        y,
        w,
        h,
        ms[i].x as int,
        ms[i].y as int,
        footprint(ms[i]).0,
        footprint(ms[i]).1,
    )) {
        lemma_overlap_has_obstacle(ms, exclude, x, y, w, h, i + 1);
    }
}

/// What `closest_free_from` picks is free and no farther than any free
/// candidate; it picks nothing only when every candidate is taken.
proof fn lemma_closest_free(
    ms: Seq<Output>,
    exclude: Seq<char>,
    cands: Seq<(i32, i32)>,
    w: int,
    h: int,
    pref: (i32, i32),
    i: int,
)
    requires
        0 <= i <= cands.len(),
    ensures
        match closest_free_from(ms, exclude, cands, w, h, pref, i) {
            Some(k) => i <= k < cands.len() && !overlaps_from(
                ms,
                exclude,
                cands[k].0 as int,
                cands[k].1 as int,
                w,
                h,
                0,
            ) && forall|j: int|
                i <= j < cands.len() && !overlaps_from(
                    ms,
                    exclude,
                    cands[j].0 as int,
                    cands[j].1 as int,
                    w,
                    h,
                    0,
                ) ==> manhattan(cands[k], pref) <= manhattan(#[trigger] cands[j], pref),
            None => forall|j: int|
                i <= j < cands.len() ==> overlaps_from(
                    ms,
                    exclude,
                    (#[trigger] cands[j]).0 as int,
                    cands[j].1 as int,
                    w,
                    h,
                    0,
                ),
        },
    decreases cands.len() - i,
{
    if i < cands.len() {
        lemma_closest_free(ms, exclude, cands, w, h, pref, i + 1);
    }
}

/// Turning on an output whose saved position overlaps an enabled output
/// places it at one of the four probe positions flush against the enabled
/// outputs' bounding box: a free one that is closest (by Manhattan distance)
/// to the saved position. Only when all four are taken does it fall back to
/// the right of the rightmost output, and that never happens while the
/// rightmost edge fits in `i32`.
pub proof fn lemma_enable_relocates_to_closest_probe(
    ms: Seq<Output>,
    name: Seq<char>,
    saved: (i32, i32),
    w: int,
    h: int,
)
    requires
        overlaps_from(ms, name, saved.0 as int, saved.1 as int, w, h, 0),
    ensures
        ({
            let p = enable_place(ms, name, Some(saved), w, h);
            let c = probes(ms, name, w, h);
            &&& (exists|j: int|
                0 <= j < 4 && !overlaps_from(ms, name, (#[trigger] c[j]).0 as int, c[j].1 as int, w, h, 0))
                ==> exists|k: int|
                0 <= k < 4 && p == #[trigger] c[k] && !overlaps_from(
                    ms,
                    name,
                    p.0 as int,
                    p.1 as int,
                    w,
                    h,
                    0,
                ) && forall|j: int|
                    0 <= j < 4 && !overlaps_from(ms, name, (#[trigger] c[j]).0 as int, c[j].1 as int, w, h, 0)
                        ==> manhattan(p, saved) <= manhattan(c[j], saved)
            &&& (forall|j: int|
                0 <= j < 4 ==> overlaps_from(ms, name, (#[trigger] c[j]).0 as int, c[j].1 as int, w, h, 0))
                ==> p == (sat_i32(extreme_from(ms, name, 1, 0).unwrap()), 0i32)
            &&& (i32::MIN <= extreme_from(ms, name, 1, 0).unwrap() <= i32::MAX ==> exists|j: int|
                0 <= j < 4 && !overlaps_from(ms, name, (#[trigger] c[j]).0 as int, c[j].1 as int, w, h, 0))
        }),
{
    lemma_overlap_has_obstacle(ms, name, saved.0 as int, saved.1 as int, w, h, 0);
    if i32::MIN <= extreme_from(ms, name, 1, 0).unwrap() <= i32::MAX {
        lemma_relocated_is_closest_free_probe(ms, name, saved, w, h);
    }
    let c = probes(ms, name, w, h);
    lemma_closest_free(ms, name, c, w, h, saved, 0);
    match closest_free_from(ms, name, c, w, h, saved, 0) {
        Some(k) => {
            assert(enable_place(ms, name, Some(saved), w, h) == c[k]);
        },
        None => {},
    }
}



/// Every obstacle at index `i` or after ends at or left of the rightmost edge.
proof fn lemma_rightmost_bounds(ms: Seq<Output>, exclude: Seq<char>, i: int)
    requires
        0 <= i,
    ensures
        forall|k: int|
            i <= k < ms.len() && is_obstacle(ms[k], exclude) ==> extreme_from(ms, exclude, 1, i) is Some
                && edge_value(#[trigger] ms[k], 1) <= extreme_from(ms, exclude, 1, i).unwrap(),
    decreases ms.len() - i,
{
    if i < ms.len() {
        lemma_rightmost_bounds(ms, exclude, i + 1);
    }
}

/// A rectangle whose left edge is at or right of every obstacle's right
/// edge overlaps none of them.
proof fn lemma_right_of_all_is_free(
    ms: Seq<Output>,
    exclude: Seq<char>,
    x: int,
    y: int,
    w: int,
    h: int,
    i: int,
)
    requires
        forall|k: int|
            i <= k < ms.len() && is_obstacle(ms[k], exclude) ==> edge_value(#[trigger] ms[k], 1) <= x,
    ensures
        !overlaps_from(ms, exclude, x, y, w, h, i),
    decreases ms.len() - i,
{
    if 0 <= i < ms.len() {
        lemma_right_of_all_is_free(ms, exclude, x, y, w, h, i + 1);
    }
}

/// Where an output is moved when its wanted place is taken (see
/// `relocated`): with at least one obstacle, and coordinates that fit in
/// `i32`, it is one of the four probe positions, it overlaps no obstacle,
/// and no free probe is closer (by Manhattan distance) to the wanted place.
pub proof fn lemma_relocated_is_closest_free_probe(
    ms: Seq<Output>,
    name: Seq<char>,
    pref: (i32, i32),
    w: int,
    h: int,
)
    requires
        extreme_from(ms, name, 1, 0) is Some,
        i32::MIN <= extreme_from(ms, name, 1, 0).unwrap() <= i32::MAX,
    ensures
        ({
            let p = relocated(ms, name, pref, w, h);
            let c = probes(ms, name, w, h);
            exists|k: int|
                0 <= k < 4 && p == #[trigger] c[k] && !overlaps_from(
                    ms,
                    name,
                    p.0 as int,
                    p.1 as int,
                    w,
                    h,
                    0,
                ) && forall|j: int|
                    0 <= j < 4 && !overlaps_from(ms, name, (#[trigger] c[j]).0 as int, c[j].1 as int, w, h, 0)
                        ==> manhattan(p, pref) <= manhattan(c[j], pref)
        }),
{
    let c = probes(ms, name, w, h);
    let right = extreme_from(ms, name, 1, 0).unwrap();
    lemma_rightmost_bounds(ms, name, 0);
    lemma_right_of_all_is_free(ms, name, right, 0, w, h, 0);
    assert(c[1] == (sat_i32(right), 0i32));
    assert(!overlaps_from(ms, name, c[1].0 as int, c[1].1 as int, w, h, 0));
    lemma_closest_free(ms, name, c, w, h, pref, 0);
    let k = closest_free_from(ms, name, c, w, h, pref, 0).unwrap();
    assert(relocated(ms, name, pref, w, h) == c[k]);
}

} // verus!
