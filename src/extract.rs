use vstd::prelude::*;

use crate::chars::{
    chars_of, find_char, find_char_from, is_ws, skip_ws, skip_ws_back, strip_prefix, string_of,
    trim, trim_start,
};
use crate::compositor::{Compositor, compositor_label};
use crate::chars::{line_end, next_newline, strip_at};
use crate::workspace::{hypr_ws_line, parse_hypr_line, parse_sway_line, sway_ws_line};

verus! {

/// What moving the monitor declarations of a compositor's main
/// configuration into a file of their own takes: the new file's content,
/// files to rewrite (path and content), the directive to append to the main
/// file, the main file's path, and whether such a directive is there already.
#[derive(Debug)]
pub struct ExtractionPlan {
    pub output_content: String,
    pub modified_files: Vec<(String, String)>,
    pub source_line: Option<String>,
    pub main_config: String,
    pub source_exists: bool,
}

/// Whether `t` starts with the word `kw` (followed by whitespace or nothing).
pub open spec fn keyword_line(t: Seq<char>, kw: Seq<char>) -> bool {
    match strip_prefix(t, kw) {
        Some(r) => r.len() == 0 || is_ws(r[0]),
        None => false,
    }
}

/// Whether `t` is `<kw> = ...` (spaces around `=` optional).
pub open spec fn assignment_line(t: Seq<char>, kw: Seq<char>) -> bool {
    match strip_prefix(t, kw) {
        Some(r) => strip_prefix(trim_start(r), "="@) is Some,
        None => false,
    }
}

/// Whether `t` ends with `suffix`.
pub open spec fn ends_with(t: Seq<char>, suffix: Seq<char>) -> bool {
    suffix.len() <= t.len() && t.subrange(t.len() - suffix.len(), t.len() as int) == suffix
}

/// Whether a trimmed line declares a monitor or pins a workspace to one.
pub open spec fn is_declaration(t: Seq<char>, sway: bool) -> bool {
    if sway {
        keyword_line(t, "output"@) || sway_ws_line(t) is Some
    } else {
        assignment_line(t, "monitor"@) || hypr_ws_line(t) is Some
    }
}

/// Whether a trimmed line is the directive that reads file `fname`.
pub open spec fn is_directive_for(t: Seq<char>, sway: bool, fname: Seq<char>) -> bool {
    (if sway {
        keyword_line(t, "include"@)
    } else {
        assignment_line(t, "source"@)
    }) && ends_with(t, fname)
}

/// Whether a declaration line opens a block that later lines continue.
pub open spec fn opens_block(t: Seq<char>) -> bool {
    find_char_from(t, '{', 0) is Some && find_char_from(t, '}', 0) is None
}

/// Split of the lines of `s` from `i` on: the declaration lines (each with a
/// newline), the other lines as they stand, and whether a directive for
/// `fname` is among them. `in_block` tells whether a block of a declaration
/// is open; its lines up to the one with `}` are declarations too.
pub open spec fn split_from(s: Seq<char>, i: int, sway: bool, in_block: bool, fname: Seq<char>) -> (
    Seq<char>,
    Seq<char>,
    bool,
)
    decreases s.len() + 1 - i,
{
    if i < 0 || i > s.len() {
        (Seq::empty(), Seq::empty(), false)
    } else {
        let j = next_newline(s, i);
        if j < i || j > s.len() {
            (Seq::empty(), Seq::empty(), false)
        } else {
            let line = s.subrange(i, j);
            let seg = if j < s.len() {
                s.subrange(i, j + 1)
            } else {
                line
            };
            let t = trim(line);
            if in_block {
                let rest = split_from(s, j + 1, sway, find_char_from(t, '}', 0) is None, fname);
                (line + "\n"@ + rest.0, rest.1, rest.2)
            } else if is_declaration(t, sway) {
                let rest = split_from(s, j + 1, sway, sway && opens_block(t), fname);
                (line + "\n"@ + rest.0, rest.1, rest.2)
            } else {
                let rest = split_from(s, j + 1, sway, false, fname);
                (rest.0, seg + rest.1, is_directive_for(t, sway, fname) || rest.2)
            }
        }
    }
}

/// The directive that makes the main file read `fname`.
pub open spec fn directive_for(sway: bool, fname: Seq<char>) -> Seq<char> {
    if sway {
        "include "@ + fname
    } else {
        "source = "@ + fname
    }
}

/// Error text for a compositor without extraction.
pub open spec fn unsupported_text(c: Compositor) -> Seq<char> {
    "Config extraction not supported for "@ + compositor_label(c)
}

/// The plan for `content`, the main configuration at `path`, in the
/// dialect chosen by `sway`: see `split_from` and `directive_for`.
pub open spec fn plan_matches(
    p: ExtractionPlan,
    path: Seq<char>,
    content: Seq<char>,
    sway: bool,
    fname: Seq<char>,
) -> bool {
    let parts = split_from(content, 0, sway, false, fname);
    &&& p.output_content@ == parts.0
    &&& p.main_config@ == path
    &&& p.source_exists == parts.2
    &&& (parts.0.len() > 0 ==> p.modified_files@.len() == 1 && p.modified_files@[0].0@ == path
        && p.modified_files@[0].1@ == parts.1)
    &&& (parts.0.len() == 0 ==> p.modified_files@.len() == 0)
    &&& match p.source_line {
        Some(l) => !parts.2 && l@ == directive_for(sway, fname),
        None => parts.2,
    }
}

/// Whether `cs[i..j]` ends with `suffix`.
fn ends_with_at(cs: &Vec<char>, i: usize, j: usize, suffix: &Vec<char>) -> (r: bool)
    requires
        i <= j <= cs@.len(),
    ensures
        r == ends_with(cs@.subrange(i as int, j as int), suffix@),
{
    let n = suffix.len();
    if n > j - i {
        return false;
    }
    let mut k: usize = 0;
    while k < n
        invariant
            n == suffix@.len(),
            n <= j - i,
            i <= j <= cs@.len(),
            k <= n,
            forall|m: int| 0 <= m < k ==> cs@[j - n + m] == suffix@[m],
        decreases n - k,
    {
        if cs[j - n + k] != suffix[k] {
            assert(cs@.subrange(i as int, j as int).subrange((j - i - n) as int, (j - i) as int)[k as int]
                != suffix@[k as int]);
            return false;
        }
        k = k + 1;
    }
    assert(cs@.subrange(i as int, j as int).subrange((j - i - n) as int, (j - i) as int) =~= suffix@);
    true
}

fn keyword_at(cs: &Vec<char>, i: usize, j: usize, kw: &str) -> (r: bool)
    requires
        i <= j <= cs@.len(),
    ensures
        r == keyword_line(cs@.subrange(i as int, j as int), kw@),
{
    match strip_at(cs, i, j, kw) {
        Some(k) => k == j || crate::chars::is_whitespace(cs[k]),
        None => false,
    }
}

fn assignment_at(cs: &Vec<char>, i: usize, j: usize, kw: &str) -> (r: bool)
    requires
        i <= j <= cs@.len(),
    ensures
        r == assignment_line(cs@.subrange(i as int, j as int), kw@),
{
    match strip_at(cs, i, j, kw) {
        Some(k) => {
            let k2 = skip_ws(cs, k, j);
            strip_at(cs, k2, j, "=").is_some()
        },
        None => false,
    }
}

fn declaration_at(text: &str, cs: &Vec<char>, i: usize, j: usize, sway: bool) -> (r: bool)
    requires
        i <= j <= cs@.len(),
        cs@ == text@,
    ensures
        r == is_declaration(cs@.subrange(i as int, j as int), sway),
{
    if sway {
        keyword_at(cs, i, j, "output") || parse_sway_line(text, cs, i, j).is_some()
    } else {
        assignment_at(cs, i, j, "monitor") || parse_hypr_line(text, cs, i, j).is_some()
    }
}


fn directive_at(cs: &Vec<char>, i: usize, j: usize, sway: bool, fname: &Vec<char>) -> (r: bool)
    requires
        i <= j <= cs@.len(),
    ensures
        r == is_directive_for(cs@.subrange(i as int, j as int), sway, fname@),
{
    let head = if sway {
        keyword_at(cs, i, j, "include")
    } else {
        assignment_at(cs, i, j, "source")
    };
    head && ends_with_at(cs, i, j, fname)
}

fn has_char(cs: &Vec<char>, i: usize, j: usize, c: char) -> (r: bool)
    requires
        i <= j <= cs@.len(),
    ensures
        r == (find_char_from(cs@.subrange(i as int, j as int), c, 0) is Some),
{
    find_char(cs, i, j, c).is_some()
}

fn split_config(text: &str, sway: bool, fname: &Vec<char>) -> (r: (String, String, bool))
    ensures
        (r.0@, r.1@, r.2) == split_from(text@, 0, sway, false, fname@),
{
    let cs = chars_of(text);
    let n = cs.len();
    let mut out = String::new();
    let mut kept = String::new();
    let mut found = false;
    let mut in_block = false;
    let mut i: usize = 0;
    loop
        invariant_except_break
            i <= n,
            ({
                let rest = split_from(cs@, i as int, sway, in_block, fname@);
                let all = split_from(cs@, 0, sway, false, fname@);
                out@ + rest.0 == all.0 && kept@ + rest.1 == all.1 && (found || rest.2) == all.2
            }),
        invariant
            n == cs@.len(),
            cs@ == text@,
        ensures
            (out@, kept@, found) == split_from(text@, 0, sway, false, fname@),
        decreases n + 1 - i,
    {
        let j = line_end(&cs, i);
        let t0 = skip_ws(&cs, i, j);
        let t1 = skip_ws_back(&cs, t0, j);
        let ghost rest_before = split_from(cs@, i as int, sway, in_block, fname@);
        let ghost out0 = out@;
        let ghost kept0 = kept@;
        if in_block || declaration_at(text, &cs, t0, t1, sway) {
            out.append(text.substring_char(i, j));
            out.append("\n");
            in_block = if in_block {
                !has_char(&cs, t0, t1, '}')
            } else {
                sway && has_char(&cs, t0, t1, '{') && !has_char(&cs, t0, t1, '}')
            };
            assert(out@ + split_from(cs@, j + 1, sway, in_block, fname@).0 =~= out0 + rest_before.0);
        } else {
            let end = if j < n {
                j + 1
            } else {
                j
            };
            kept.append(text.substring_char(i, end));
            found = found || directive_at(&cs, t0, t1, sway, fname);
            in_block = false;
            assert(kept@ + split_from(cs@, j + 1, sway, in_block, fname@).1 =~= kept0 + rest_before.1);
        }
        if j >= n {
            let ghost last = split_from(cs@, j + 1, sway, in_block, fname@);
            assert(last.0 =~= Seq::<char>::empty());
            assert(last.1 =~= Seq::<char>::empty());
            assert(out@ =~= out@ + last.0);
            assert(kept@ =~= kept@ + last.1);
            break;
        }
        i = j + 1;
    }
    (out, kept, found)
}

fn plan_for(path: &str, content: &str, sway: bool, output_filename: &str) -> (r: ExtractionPlan)
    ensures
        plan_matches(r, path@, content@, sway, output_filename@),
{
    let fname = chars_of(output_filename);
    let (out, kept, found) = split_config(content, sway, &fname);
    let mut modified: Vec<(String, String)> = Vec::new();
    if out.as_str().unicode_len() > 0 {
        modified.push((String::from_str(path), kept));
    }
    let source_line = if found {
        None
    } else {
        let mut l = String::new();
        if sway {
            l.append("include ");
        } else {
            l.append("source = ");
        }
        l.append(output_filename);
        Some(l)
    };
    ExtractionPlan {
        output_content: out,
        modified_files: modified,
        source_line,
        main_config: String::from_str(path),
        source_exists: found,
    }
}

/// Plan to move the monitor declarations of `content`, the main
/// configuration file at `config_path`, into `output_filename` beside it.
/// Only the line-oriented and block-oriented dialects support it; another
/// compositor gives an error that names it.
pub fn extract_monitors(
    config_path: &str,
    content: &str,
    compositor: Compositor,
    output_filename: &str,
) -> (r: Result<ExtractionPlan, String>)
    ensures
        compositor == Compositor::Hyprland ==> r is Ok && plan_matches(
            r->Ok_0,
            config_path@,
            content@,
            false,
            output_filename@,
        ),
        compositor == Compositor::Sway ==> r is Ok && plan_matches(
            r->Ok_0,
            config_path@,
            content@,
            true,
            output_filename@,
        ),
        compositor != Compositor::Hyprland && compositor != Compositor::Sway ==> r is Err && r->Err_0@
            == unsupported_text(compositor),
{
    match compositor {
        Compositor::Hyprland => Ok(plan_for(config_path, content, false, output_filename)),
        Compositor::Sway => Ok(plan_for(config_path, content, true, output_filename)),
        _ => {
            let mut e = String::new();
            e.append("Config extraction not supported for ");
            e.append(compositor.label());
            Err(e)
        },
    }
}

/// The name of the file a plan writes: the one its directive reads, else
/// `outputs.conf` for an `include` directive and `monitors.conf` otherwise.
pub open spec fn output_name_of(source_line: Option<String>) -> Seq<char> {
    match source_line {
        Some(l) => if contains(l@, "include"@) {
            match strip_prefix(l@, "include "@) {
                Some(rest) => rest,
                None => "outputs.conf"@,
            }
        } else {
            match strip_prefix(l@, "source = "@) {
                Some(rest) => rest,
                None => "monitors.conf"@,
            }
        },
        None => "monitors.conf"@,
    }
}

/// Whether `s` holds `p` somewhere.
pub open spec fn contains(s: Seq<char>, p: Seq<char>) -> bool {
    exists|k: int| 0 <= k <= s.len() - p.len() && #[trigger] s.subrange(k, k + p.len()) == p
}

fn contains_at(cs: &Vec<char>, p: &str) -> (r: bool)
    ensures
        r == contains(cs@, p@),
{
    let n = p.unicode_len();
    if n > cs.len() {
        return false;
    }
    if n == 0 {
        assert(cs@.subrange(0, 0 + p@.len() as int) =~= p@);
        assert(contains(cs@, p@));
        return true;
    }
    let mut k: usize = 0;
    while k <= cs.len() - n
        invariant
            n == p@.len(),
            1 <= n <= cs@.len(),
            k <= cs@.len() - n + 1,
            forall|m: int| 0 <= m < k ==> #[trigger] cs@.subrange(m, m + n) != p@,
        decreases cs@.len() - n + 1 - k,
    {
        if strip_at(cs, k, cs.len(), p).is_some() {
            assert(cs@.subrange(k as int, cs@.len() as int).subrange(0, n as int) =~= cs@.subrange(
                k as int,
                k + n,
            ));
            return true;
        }
        assert(cs@.subrange(k as int, cs@.len() as int).subrange(0, n as int) =~= cs@.subrange(
            k as int,
            k + n,
        ));
        k = k + 1;
    }
    false
}

impl ExtractionPlan {
    /// Whether any monitor declaration was found.
    pub fn has_monitors(&self) -> (r: bool)
        ensures
            r == (self.output_content@.len() > 0),
    {
        self.output_content.as_str().unicode_len() > 0
    }

    /// Name of the file that the plan writes, beside the main file (see
    /// `output_name_of`).
    pub fn output_file_name(&self) -> (r: String)
        ensures
            r@ == output_name_of(self.source_line),
    {
        match &self.source_line {
            Some(l) => {
                let cs = chars_of(l.as_str());
                let n = cs.len();
                if contains_at(&cs, "include") {
                    match strip_at(&cs, 0, n, "include ") {
                        Some(k) => {
                            assert(cs@.subrange(0, n as int) =~= l@);
                            string_of(l.as_str(), k, n)
                        },
                        None => {
                            assert(cs@.subrange(0, n as int) =~= l@);
                            String::from_str("outputs.conf")
                        },
                    }
                } else {
                    match strip_at(&cs, 0, n, "source = ") {
                        Some(k) => {
                            assert(cs@.subrange(0, n as int) =~= l@);
                            string_of(l.as_str(), k, n)
                        },
                        None => {
                            assert(cs@.subrange(0, n as int) =~= l@);
                            String::from_str("monitors.conf")
                        },
                    }
                }
            },
            None => String::from_str("monitors.conf"),
        }
    }

    /// The main file's new content once the directive is appended: a
    /// newline to end the last line if needed, a blank line, the directive
    /// and a newline. `None` when there is no directive to add.
    pub fn main_config_with_directive(&self, current: &str) -> (r: Option<String>)
        ensures
            match self.source_line {
                Some(l) => r is Some && r->Some_0@ == (if current@.len() > 0 && current@.last()
                    == '\n' {
                    current@
                } else {
                    current@ + "\n"@
                }) + "\n"@ + l@ + "\n"@,
                None => r is None,
            },
    {
        match &self.source_line {
            Some(l) => {
                let mut s = String::from_str(current);
                let n = current.unicode_len();
                let ends = n > 0 && current.get_char(n - 1) == '\n';
                if !ends {
                    s.append("\n");
                }
                s.append("\n");
                s.append(l.as_str());
                s.append("\n");
                Some(s)
            },
            None => None,
        }
    }
}


/// File that extraction writes by default: `outputs.conf` for the
/// block-oriented dialect, `monitors.conf` otherwise.
pub fn default_output_filename(c: Compositor) -> (r: &'static str)
    ensures
        r@ == if c == Compositor::Sway {
            "outputs.conf"@
        } else {
            "monitors.conf"@
        },
{
    match c {
        Compositor::Sway => "outputs.conf",
        _ => "monitors.conf",
    }
}

} // verus!
