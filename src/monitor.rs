use vstd::prelude::*;

use crate::chars::{chars_of, find_char, find_char_from, string_of};

verus! {

/// One refresh rate that an output offers, as the compositor's query lists it.
#[derive(Debug)]
pub struct Monitor {
    pub name: String,
    pub refresh_rate: String,
    pub active: bool,
}

/// The part of a `<w>x<h>@<rate>...` mode text between its first and second
/// `@`; `None` without `@`.
pub open spec fn refresh_part(mode: Seq<char>) -> Option<Seq<char>> {
    match find_char_from(mode, '@', 0) {
        None => None,
        Some(k) => {
            let rest = mode.subrange(k + 1, mode.len() as int);
            Some(
                rest.subrange(
                    0,
                    match find_char_from(rest, '@', 0) {
                        Some(e) => e,
                        None => rest.len() as int,
                    },
                ),
            )
        },
    }
}

/// Refresh rates of the first `n` mode texts, in order.
pub open spec fn refresh_rates(modes: Seq<String>, n: int) -> Seq<Seq<char>>
    decreases n,
{
    if n <= 0 || n > modes.len() {
        Seq::empty()
    } else {
        match refresh_part(modes[n - 1]@) {
            Some(r) => refresh_rates(modes, n - 1).push(r),
            None => refresh_rates(modes, n - 1),
        }
    }
}

fn refresh_of(mode: &String) -> (r: Option<String>)
    ensures
        match r {
            Some(t) => refresh_part(mode@) == Some(t@),
            None => refresh_part(mode@) is None,
        },
{
    let cs = chars_of(mode.as_str());
    let n = cs.len();
    assert(cs@.subrange(0, n as int) =~= mode@);
    let k = match find_char(&cs, 0, n, '@') {
        Some(k) => k,
        None => return None,
    };
    let ghost rest = mode@.subrange(k + 1, n as int);
    match find_char(&cs, k + 1, n, '@') {
        Some(e) => {
            assert(rest.subrange(0, e - (k + 1)) =~= mode@.subrange(k + 1, e as int));
            Some(string_of(mode.as_str(), k + 1, e))
        },
        None => {
            assert(rest.subrange(0, rest.len() as int) =~= mode@.subrange(k + 1, n as int));
            Some(string_of(mode.as_str(), k + 1, n))
        },
    }
}

impl Monitor {
    /// One entry per mode text of an output that names a refresh rate, with
    /// the output's name and whether it is the focused one.
    pub fn from_modes(name: &String, active: bool, available_modes: &Vec<String>) -> (r: Vec<Monitor>)
        ensures
            r@.len() == refresh_rates(available_modes@, available_modes@.len() as int).len(),
            forall|i: int|
                0 <= i < r@.len() ==> (#[trigger] r@[i]).name@ == name@ && r@[i].active == active
                    && r@[i].refresh_rate@ == refresh_rates(
                    available_modes@,
                    available_modes@.len() as int,
                )[i],
    {
        let mut out: Vec<Monitor> = Vec::new();
        let mut i: usize = 0;
        while i < available_modes.len()
            invariant
                i <= available_modes@.len(),
                out@.len() == refresh_rates(available_modes@, i as int).len(),
                forall|k: int|
                    0 <= k < out@.len() ==> (#[trigger] out@[k]).name@ == name@ && out@[k].active
                        == active && out@[k].refresh_rate@ == refresh_rates(
                        available_modes@,
                        i as int,
                    )[k],
            decreases available_modes@.len() - i,
        {
            if let Some(rate) = refresh_of(&available_modes[i]) {
                out.push(Monitor { name: name.clone(), refresh_rate: rate, active });
            }
            i = i + 1;
        }
        out
    }
}

} // verus!
