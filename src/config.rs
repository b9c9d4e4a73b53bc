use vstd::prelude::*;

use crate::app::StepPolicy;
use crate::compositor::Compositor;
use crate::chars::{chars_of, strip_at, skip_ws, skip_ws_back, string_of, strip_prefix, trim};

verus! {

/// The settings record: where the monitor configuration is written, how
/// many workspaces are tracked, and how keyboard moves size their steps.
#[derive(Debug)]
pub struct AppConfig {
    pub monitor_config_path: String,
    pub workspace_count: usize,
    pub step_policy: StepPolicy,
}

/// Workspaces tracked when the settings do not say.
pub const DEFAULT_WORKSPACE_COUNT: usize = 10;

/// Workspaces tracked when the settings do not say.
pub fn default_workspace_count() -> (r: usize)
    ensures
        r == DEFAULT_WORKSPACE_COUNT,
{
    DEFAULT_WORKSPACE_COUNT
}

/// Suggested monitor configuration file under the home directory `home`;
/// empty for an unknown compositor.
pub open spec fn default_path_text(c: Compositor, home: Seq<char>) -> Seq<char> {
    match c {
        Compositor::Hyprland => home + "/.config/hypr/monitors.conf"@,
        Compositor::Sway => home + "/.config/sway/monitors.conf"@,
        Compositor::River => home + "/.config/river/monitors.conf"@,
        Compositor::Unknown => Seq::empty(),
    }
}

/// Suggested monitor configuration file (see `default_path_text`).
pub fn default_config_path(c: Compositor, home: &str) -> (r: String)
    ensures
        r@ == default_path_text(c, home@),
{
    let mut s = String::new();
    match c {
        Compositor::Hyprland => {
            s.append(home);
            s.append("/.config/hypr/monitors.conf");
        },
        Compositor::Sway => {
            s.append(home);
            s.append("/.config/sway/monitors.conf");
        },
        Compositor::River => {
            s.append(home);
            s.append("/.config/river/monitors.conf");
        },
        Compositor::Unknown => {},
    }
    assert(s@ =~= default_path_text(c, home@));
    s
}

/// `path` with a leading `~/` replaced by the home directory, when known.
pub open spec fn expanded(path: Seq<char>, home: Option<Seq<char>>) -> Seq<char> {
    match (strip_prefix(path, "~/"@), home) {
        (Some(rest), Some(h)) => h + "/"@ + rest,
        _ => path,
    }
}

/// Expand a leading `~/` (see `expanded`).
pub fn expand_tilde(path: &str, home: Option<&str>) -> (r: String)
    ensures
        r@ == expanded(
            path@,
            match home {
                Some(h) => Some(h@),
                None => None,
            },
        ),
{
    let cs = chars_of(path);
    let n = cs.len();
    assert(cs@.subrange(0, n as int) =~= path@);
    match (strip_at(&cs, 0, n, "~/"), home) {
        (Some(k), Some(h)) => {
            let mut s = String::from_str(h);
            s.append("/");
            let rest = string_of(path, k, n);
            s.append(rest.as_str());
            s
        },
        _ => String::from_str(path),
    }
}


/// The compositor's own main configuration file under `home`; none for a
/// compositor whose main file is not read.
pub open spec fn main_config_text(c: Compositor, home: Seq<char>) -> Option<Seq<char>> {
    match c {
        Compositor::Hyprland => Some(home + "/.config/hypr/hyprland.conf"@),
        Compositor::Sway => Some(home + "/.config/sway/config"@),
        _ => None,
    }
}

/// Path of the compositor's main configuration file (see `main_config_text`).
pub fn main_config_path(c: Compositor, home: &str) -> (r: Option<String>)
    ensures
        match r {
            Some(p) => main_config_text(c, home@) == Some(p@),
            None => main_config_text(c, home@) is None,
        },
{
    let mut s = String::from_str(home);
    match c {
        Compositor::Hyprland => s.append("/.config/hypr/hyprland.conf"),
        Compositor::Sway => s.append("/.config/sway/config"),
        _ => return None,
    }
    Some(s)
}

/// `path` (trimmed) as seen from the directory `base`: a leading `~/` goes
/// to the home directory when known, an absolute path stays, and a relative
/// one is joined to `base`.
pub open spec fn resolved_path(base: Seq<char>, path: Seq<char>, home: Option<Seq<char>>) -> Seq<char> {
    let p = trim(path);
    match (strip_prefix(p, "~/"@), home) {
        (Some(rest), Some(h)) => h + "/"@ + rest,
        _ => if p.len() > 0 && p[0] == '/' {
            p
        } else if base.len() == 0 || base.last() == '/' {
            base + p
        } else {
            base + "/"@ + p
        },
    }
}

/// Resolve a path named in a configuration file (see `resolved_path`).
pub fn resolve_path(base_dir: &str, path: &str, home: Option<&str>) -> (r: String)
    ensures
        r@ == resolved_path(
            base_dir@,
            path@,
            match home {
                Some(h) => Some(h@),
                None => None,
            },
        ),
{
    let cs = chars_of(path);
    let n = cs.len();
    let a = skip_ws(&cs, 0, n);
    let b = skip_ws_back(&cs, a, n);
    assert(cs@.subrange(0, n as int) =~= path@);
    let p = string_of(path, a, b);
    match (strip_at(&cs, a, b, "~/"), home) {
        (Some(k), Some(h)) => {
            let mut s = String::from_str(h);
            s.append("/");
            s.append(string_of(path, k, b).as_str());
            return s;
        },
        _ => {},
    }
    if a < b && cs[a] == '/' {
        return p;
    }
    let mut s = String::from_str(base_dir);
    let m = base_dir.unicode_len();
    if !(m == 0 || base_dir.get_char(m - 1) == '/') {
        s.append("/");
    }
    s.append(p.as_str());
    s
}

} // verus!
