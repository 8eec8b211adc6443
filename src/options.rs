//! The configuration record and the defaults of its configuration-file keys.
use vstd::prelude::*;
use vstd::string::StringExecFns;

verus! {

/// Every toggle and string the status line is rendered under.
pub struct Options {
    /// The folder whose repository is inspected.
    pub path: String,
    /// Wrap the output in parentheses.
    pub parentheses: bool,
    /// Wrap the output in square brackets (outside any parentheses).
    pub square_brackets: bool,
    /// Marker for unstaged changes (for any change when not separated).
    pub unstaged_string: String,
    /// Marker for staged changes.
    pub staged_string: String,
    /// Show unstaged and staged markers separately.
    pub separate_changes: bool,
    /// Prefix the output with an icon for the remote's host.
    pub remote_icon: bool,
    /// Report failures on the diagnostic stream.
    pub print_error: bool,
    /// Extra icon rules, `prefix|icon[|r,g,b]`, searched before the built-in ones.
    pub icon_override: Vec<String>,
    /// Colour icons whose rule has a colour.
    pub icon_color: bool,
    /// Show ahead/behind arrows.
    pub commit_arrow: bool,
    /// Minutes after the last fetch from which a fetch is due.
    pub fetch_time: Option<u64>,
    /// Glyph that reminds that a fetch is due.
    pub fetch_icon: String,
    /// Fetch when one is due instead of showing the reminder.
    pub should_fetch: bool,
    /// Glyph for commits behind the upstream.
    pub commit_behind: String,
    /// Glyph for commits ahead of the upstream.
    pub commit_ahead: String,
    /// Show counts, branch first.
    pub detailed_info: bool,
    /// Show a marker inside a nix shell.
    pub detect_nix: bool,
    /// The nix-shell marker.
    pub nix_symbol: String,
}

pub fn default_path() -> (r: String)
    ensures
        r@ == "."@,
{
    String::from_str(".")
}

pub fn default_unstaged_string() -> (r: String)
    ensures
        r@ == "*"@,
{
    String::from_str("*")
}

pub fn default_staged_string() -> (r: String)
    ensures
        r@ == "+"@,
{
    String::from_str("+")
}

pub fn default_fetch_icon() -> (r: String)
    ensures
        r@ == "\u{f0954} "@,
{
    String::from_str("\u{f0954} ")
}

pub fn default_commit_ahead() -> (r: String)
    ensures
        r@ == "\u{ea9a}"@,
{
    String::from_str("\u{ea9a}")
}

pub fn default_commit_behind() -> (r: String)
    ensures
        r@ == "\u{eaa1}"@,
{
    String::from_str("\u{eaa1}")
}

impl Options {
    /// The options of a configuration file that sets no key.
    pub fn file_defaults() -> (r: Options)
        ensures
            r.path@ == "."@,
            !r.parentheses,
            !r.square_brackets,
            r.unstaged_string@ == "*"@,
            r.staged_string@ == "+"@,
            !r.separate_changes,
            !r.remote_icon,
            !r.print_error,
            r.icon_override@.len() == 0,
            !r.icon_color,
            !r.commit_arrow,
            r.fetch_time is None,
            r.fetch_icon@ == "\u{f0954} "@,
            !r.should_fetch,
            r.commit_behind@ == "\u{eaa1}"@,
            r.commit_ahead@ == "\u{ea9a}"@,
            !r.detailed_info,
            !r.detect_nix,
            r.nix_symbol@.len() == 0,
    {
        Options {
            path: default_path(),
            parentheses: false,
            square_brackets: false,
            unstaged_string: default_unstaged_string(),
            staged_string: default_staged_string(),
            separate_changes: false,
            remote_icon: false,
            print_error: false,
            icon_override: Vec::new(),
            icon_color: false,
            commit_arrow: false,
            fetch_time: None,
            fetch_icon: default_fetch_icon(),
            should_fetch: false,
            commit_behind: default_commit_behind(),
            commit_ahead: default_commit_ahead(),
            detailed_info: false,
            detect_nix: false,
            nix_symbol: String::new(),
        }
    }
}

} // verus!
