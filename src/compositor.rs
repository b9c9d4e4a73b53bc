use vstd::prelude::*;

use crate::chars::{chars_of, find_char_from, skip_ws, skip_ws_back, trim};

verus! {

/// The compositor whose configuration dialect is written and read.
#[derive(Clone, Copy, Debug, PartialEq, Eq, Structural)]
pub enum Compositor {
    Hyprland,
    Sway,
    River,
    Unknown,
}

/// Display name of a compositor.
pub open spec fn compositor_label(c: Compositor) -> Seq<char> {
    match c {
        Compositor::Hyprland => "Hyprland"@,
        Compositor::Sway => "Sway"@,
        Compositor::River => "River"@,
        Compositor::Unknown => "Unknown"@,
    }
}

impl Compositor {
    /// Display name of the compositor.
    pub fn label(self) -> (r: &'static str)
        ensures
            r@ == compositor_label(self),
    {
        match self {
            Compositor::Hyprland => "Hyprland",
            Compositor::Sway => "Sway",
            Compositor::River => "River",
            Compositor::Unknown => "Unknown",
        }
    }
}


/// ASCII lower case of a character; other characters stay.
pub open spec fn lower_ascii(c: char) -> char {
    if 'A' <= c <= 'Z' {
        ((c as u8) + 32) as char
    } else {
        c
    }
}

/// The compositor a desktop name stands for, if any.
pub open spec fn named_compositor(t: Seq<char>) -> Option<Compositor> {
    if t == "hyprland"@ {
        Some(Compositor::Hyprland)
    } else if t == "sway"@ {
        Some(Compositor::Sway)
    } else if t == "river"@ {
        Some(Compositor::River)
    } else {
        None
    }
}

/// The first compositor named among the `:`-separated entries of `s` from
/// index `i` on (each trimmed); `s` is already in lower case.
pub open spec fn desktop_from(s: Seq<char>, i: int) -> Option<Compositor>
    decreases s.len() + 1 - i,
{
    if i < 0 || i > s.len() {
        None
    } else {
        let j = match find_char_from(s, ':', i) {
            Some(j) => j,
            None => s.len() as int,
        };
        if j < i || j > s.len() {
            None
        } else {
            match named_compositor(trim(s.subrange(i, j))) {
                Some(c) => Some(c),
                None => desktop_from(s, j + 1),
            }
        }
    }
}

/// The compositor that the session's markers point at: a Hyprland instance
/// signature first, then a Sway socket, then the first known entry of the
/// desktop list; else unknown.
pub open spec fn detected(hyprland_signature: bool, sway_socket: bool, desktop: Option<Seq<char>>) -> Compositor {
    if hyprland_signature {
        Compositor::Hyprland
    } else if sway_socket {
        Compositor::Sway
    } else {
        match desktop {
            Some(d) => match desktop_from(d.map_values(|c: char| lower_ascii(c)), 0) {
                Some(c) => c,
                None => Compositor::Unknown,
            },
            None => Compositor::Unknown,
        }
    }
}

fn lower_ascii_exec(c: char) -> (r: char)
    ensures
        r == lower_ascii(c),
{
    if 'A' <= c && c <= 'Z' {
        ((c as u8) + 32) as char
    } else {
        c
    }
}

fn equals_at(cs: &Vec<char>, i: usize, j: usize, word: &str) -> (r: bool)
    requires
        i <= j <= cs@.len(),
    ensures
        r == (cs@.subrange(i as int, j as int) == word@),
{
    let n = word.unicode_len();
    if n != j - i {
        assert(cs@.subrange(i as int, j as int).len() != word@.len());
        return false;
    }
    let mut k: usize = 0;
    while k < n
        invariant
            n == word@.len(),
            n == j - i,
            i <= j <= cs@.len(),
            k <= n,
            forall|m: int| 0 <= m < k ==> cs@[i + m] == word@[m],
        decreases n - k,
    {
        if cs[i + k] != word.get_char(k) {
            assert(cs@.subrange(i as int, j as int)[k as int] != word@[k as int]);
            return false;
        }
        k = k + 1;
    }
    assert(cs@.subrange(i as int, j as int) =~= word@);
    true
}

/// Pick the compositor from the session's markers (see `detected`):
/// whether a Hyprland instance signature is set, whether a Sway socket is
/// set, and the desktop list, if any.
pub fn detect_from(hyprland_signature: bool, sway_socket: bool, desktop: Option<&str>) -> (r: Compositor)
    ensures
        r == detected(
            hyprland_signature,
            sway_socket,
            match desktop {
                Some(d) => Some(d@),
                None => None,
            },
        ),
{
    if hyprland_signature {
        return Compositor::Hyprland;
    }
    if sway_socket {
        return Compositor::Sway;
    }
    let d = match desktop {
        Some(d) => d,
        None => return Compositor::Unknown,
    };
    let raw = chars_of(d);
    let mut cs: Vec<char> = Vec::new();
    let mut k: usize = 0;
    while k < raw.len()
        invariant
            k <= raw@.len(),
            cs@ == raw@.subrange(0, k as int).map_values(|c: char| lower_ascii(c)),
        decreases raw@.len() - k,
    {
        cs.push(lower_ascii_exec(raw[k]));
        k = k + 1;
        assert(cs@ =~= raw@.subrange(0, k as int).map_values(|c: char| lower_ascii(c)));
    }
    assert(raw@.subrange(0, raw@.len() as int) =~= raw@);
    let ghost low = cs@;
    assert(low == d@.map_values(|c: char| lower_ascii(c)));
    let n = cs.len();
    let mut i: usize = 0;
    loop
        invariant_except_break
            i <= n,
            desktop_from(low, i as int) == desktop_from(low, 0),
        invariant
            n == cs@.len(),
            low == cs@,
            !hyprland_signature,
            !sway_socket,
            desktop == Some(d),
            low == d@.map_values(|c: char| lower_ascii(c)),
        ensures
            desktop_from(low, 0) is None,
        decreases n + 1 - i,
    {
        let mut j = i;
        while j < n && cs[j] != ':'
            invariant
                i <= j <= n,
                n == cs@.len(),
                find_char_from(cs@, ':', i as int) == find_char_from(cs@, ':', j as int),
            decreases n - j,
        {
            j = j + 1;
        }
        let a = skip_ws(&cs, i, j);
        let b = skip_ws_back(&cs, a, j);
        assert(j < n ==> find_char_from(cs@, ':', j as int) == Some(j as int));
        assert(j >= n ==> find_char_from(cs@, ':', j as int) is None);
        assert(desktop_from(low, i as int) == match named_compositor(cs@.subrange(a as int, b as int)) {
            Some(c) => Some(c),
            None => desktop_from(low, j + 1),
        });
        if equals_at(&cs, a, b, "hyprland") {
            return Compositor::Hyprland;
        }
        if equals_at(&cs, a, b, "sway") {
            return Compositor::Sway;
        }
        if equals_at(&cs, a, b, "river") {
            return Compositor::River;
        }
        if j >= n {
            assert(desktop_from(low, j + 1) is None);
            break;
        }
        i = j + 1;
    }
    Compositor::Unknown
}

} // verus!
