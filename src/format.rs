//! Compose branch, change markers, icons, reminder and arrows into the
//! status line.
use vstd::prelude::*;
use vstd::string::StringExecFns;
use crate::changes::{classification, classify, ChangeState, FileStatus};
use crate::icons::{get_icon, resolve_icon, strings_view};
use crate::options::Options;
use crate::remote::{commit_status, divergence_counts, Divergence, FetchAction};
use crate::text::{decimal, push_decimal};

verus! {

/// What HEAD resolves to.
pub enum Head {
    /// HEAD does not resolve (no commit yet).
    Unborn,
    /// HEAD resolves but has no short name.
    Unnamed,
    /// HEAD's short name.
    Branch(String),
}

/// What the status line is rendered from, as read from the repository.
pub struct RepoState {
    pub head: Head,
    /// The URL of the first remote that resolves (empty when it has no
    /// URL); `None` when there is no remote.
    pub remote_url: Option<String>,
    /// The status flags of each file.
    pub statuses: Vec<FileStatus>,
    /// Commits ahead of and behind the upstream.
    pub divergence: Divergence,
    /// The fetch policy's decision.
    pub fetch: FetchAction,
}

/// Why no status line could be rendered.
#[derive(Clone, Copy, Debug, PartialEq, Eq, Structural)]
pub enum StatusError {
    /// HEAD exists but has no short name.
    NoBranchName,
    /// A remote icon is asked for but the repository has no usable remote.
    NoRemoteConfigured,
}

impl StatusError {
    /// The message shown for the error.
    pub fn message(&self) -> (r: String)
        ensures
            *self == StatusError::NoBranchName ==> r@ == "Failed to get branch name"@,
            *self == StatusError::NoRemoteConfigured ==> r@ == "Failed to find any remotes!"@,
    {
        match self {
            StatusError::NoBranchName => String::from_str("Failed to get branch name"),
            StatusError::NoRemoteConfigured => String::from_str("Failed to find any remotes!"),
        }
    }
}

/// The marker text for a change state.
pub open spec fn change_marker(o: Options, c: ChangeState) -> Seq<char> {
    let u = o.unstaged_string@;
    let s = o.staged_string@;
    match c {
        ChangeState::Binary { has_unstaged, has_staged } => if o.separate_changes {
            (if has_unstaged { u } else { Seq::empty() }) + (if has_staged { s } else { Seq::empty() })
        } else if has_unstaged || has_staged {
            u
        } else {
            Seq::empty()
        },
        ChangeState::Counted { unstaged, staged } => if unstaged > 0 && staged > 0 {
            ", "@ + decimal(unstaged as nat) + u + ", "@ + decimal(staged as nat) + s
        } else if unstaged > 0 {
            ", "@ + decimal(unstaged as nat) + u
        } else if staged > 0 {
            ", "@ + decimal(staged as nat) + s
        } else {
            Seq::empty()
        },
    }
}

/// The divergence suffix.
pub open spec fn arrows(o: Options, ahead: usize, behind: usize) -> Seq<char> {
    let a = o.commit_ahead@;
    let b = o.commit_behind@;
    if !o.detailed_info {
        if ahead > 0 && behind > 0 {
            " "@ + a + "/"@ + b
        } else if ahead > 0 {
            " "@ + a
        } else if behind > 0 {
            " "@ + b
        } else {
            Seq::empty()
        }
    } else if ahead > 0 && behind > 0 {
        ", "@ + a + decimal(ahead as nat) + "/"@ + b + decimal(behind as nat)
    } else if ahead > 0 {
        ", "@ + a + " "@ + decimal(ahead as nat)
    } else if behind > 0 {
        ", "@ + b + " "@ + decimal(behind as nat)
    } else {
        Seq::empty()
    }
}

/// The line for a named branch, before any wrapping.
pub open spec fn branch_line(o: Options, st: RepoState, branch: Seq<char>) -> Seq<char> {
    let marker = change_marker(o, classification(st.statuses@, o.detailed_info));
    let core = if o.detailed_info { branch + marker } else { marker + branch };
    let with_icon = if o.remote_icon {
        resolve_icon(strings_view(o.icon_override@), st.remote_url->0@, o.icon_color) + " "@ + core
    } else {
        core
    };
    let with_reminder = if st.fetch == FetchAction::Remind {
        o.fetch_icon@ + " "@ + with_icon
    } else {
        with_icon
    };
    let counts = divergence_counts(st.divergence);
    if o.commit_arrow {
        with_reminder + arrows(o, counts.0, counts.1)
    } else {
        with_reminder
    }
}

/// `s` in parentheses if `parentheses`, then in square brackets if
/// `square_brackets`.
pub open spec fn wrapped(s: Seq<char>, parentheses: bool, square_brackets: bool) -> Seq<char> {
    let p = if parentheses { "("@ + s + ")"@ } else { s };
    if square_brackets { "["@ + p + "]"@ } else { p }
}

/// The status line, or the error that prevents it.
pub open spec fn status_line(o: Options, st: RepoState) -> Result<Seq<char>, StatusError> {
    match st.head {
        Head::Unborn => Ok(wrapped("no head"@, o.parentheses, o.square_brackets)),
        Head::Unnamed => Err(StatusError::NoBranchName),
        Head::Branch(b) => if o.remote_icon && st.remote_url is None {
            Err(StatusError::NoRemoteConfigured)
        } else {
            Ok(wrapped(branch_line(o, st, b@), o.parentheses, o.square_brackets))
        },
    }
}

fn change_marker_string(options: &Options, c: ChangeState) -> (r: String)
    ensures
        r@ == change_marker(*options, c),
{
    let mut s = String::new();
    match c {
        ChangeState::Binary { has_unstaged, has_staged } => {
            if options.separate_changes {
                if has_unstaged {
                    s.append(options.unstaged_string.as_str());
                }
                if has_staged {
                    s.append(options.staged_string.as_str());
                }
            } else if has_unstaged || has_staged {
                s.append(options.unstaged_string.as_str());
            }
        },
        ChangeState::Counted { unstaged, staged } => {
            if unstaged > 0 {
                s.append(", ");
                push_decimal(&mut s, unstaged);
                s.append(options.unstaged_string.as_str());
            }
            if staged > 0 {
                s.append(", ");
                push_decimal(&mut s, staged);
                s.append(options.staged_string.as_str());
            }
        },
    }
    assert(s@ =~= change_marker(*options, c));
    s
}

fn arrow_string(options: &Options, ahead: usize, behind: usize) -> (r: String)
    ensures
        r@ == arrows(*options, ahead, behind),
{
    let mut s = String::new();
    if !options.detailed_info {
        if ahead > 0 && behind > 0 {
            s.append(" ");
            s.append(options.commit_ahead.as_str());
            s.append("/");
            s.append(options.commit_behind.as_str());
        } else if ahead > 0 {
            s.append(" ");
            s.append(options.commit_ahead.as_str());
        } else if behind > 0 {
            s.append(" ");
            s.append(options.commit_behind.as_str());
        }
    } else if ahead > 0 && behind > 0 {
        s.append(", ");
        s.append(options.commit_ahead.as_str());
        push_decimal(&mut s, ahead);
        s.append("/");
        s.append(options.commit_behind.as_str());
        push_decimal(&mut s, behind);
    } else if ahead > 0 {
        s.append(", ");
        s.append(options.commit_ahead.as_str());
        s.append(" ");
        push_decimal(&mut s, ahead);
    } else if behind > 0 {
        s.append(", ");
        s.append(options.commit_behind.as_str());
        s.append(" ");
        push_decimal(&mut s, behind);
    }
    assert(s@ =~= arrows(*options, ahead, behind));
    s
}

/// Wrap `s` in parentheses, then square brackets, as configured.
pub fn wrap(s: String, parentheses: bool, square_brackets: bool) -> (r: String)
    ensures
        r@ == wrapped(s@, parentheses, square_brackets),
{
    let mut s = s;
    if parentheses {
        s = String::from_str("(").concat(s.as_str()).concat(")");
    }
    if square_brackets {
        s = String::from_str("[").concat(s.as_str()).concat("]");
    }
    s
}

fn branch_string(options: &Options, state: &RepoState, branch: &String) -> (r: String)
    requires
        options.remote_icon ==> state.remote_url is Some,
    ensures
        r@ == branch_line(*options, *state, branch@),
{
    let marker = change_marker_string(options, classify(&state.statuses, options.detailed_info));
    let mut s = if options.detailed_info {
        branch.clone().concat(marker.as_str())
    } else {
        marker.concat(branch.as_str())
    };
    if options.remote_icon {
        match &state.remote_url {
            Some(u) => {
                let icon = get_icon(u.as_str(), options.icon_override.clone(), options.icon_color);
                s = icon.concat(" ").concat(s.as_str());
            },
            None => {},
        }
    }
    if state.fetch == FetchAction::Remind {
        s = options.fetch_icon.clone().concat(" ").concat(s.as_str());
    }
    if options.commit_arrow {
        let (ahead, behind) = commit_status(state.divergence);
        s.append(arrow_string(options, ahead, behind).as_str());
    }
    s
}

/// Render the status line: the placeholder `no head` when HEAD does not
/// resolve, else the branch with its change markers, optionally preceded by
/// the remote icon and the fetch reminder and followed by the divergence
/// arrows; then wrapped in parentheses and square brackets as configured.
/// Fails with `NoBranchName` when HEAD has no short name, and with
/// `NoRemoteConfigured` when an icon is asked for and there is no remote.
pub fn format_status(options: &Options, state: &RepoState) -> (r: Result<String, StatusError>)
    ensures
        match r {
            Ok(s) => status_line(*options, *state) == Ok::<Seq<char>, StatusError>(s@),
            Err(e) => status_line(*options, *state) == Err::<Seq<char>, StatusError>(e),
        },
{
    let s = match &state.head {
        Head::Unborn => String::from_str("no head"),
        Head::Unnamed => {
            return Err(StatusError::NoBranchName);
        },
        Head::Branch(b) => {
            if options.remote_icon && state.remote_url.is_none() {
                return Err(StatusError::NoRemoteConfigured);
            }
            branch_string(options, state, b)
        },
    };
    Ok(wrap(s, options.parentheses, options.square_brackets))
}

/// With both toggles set, the square brackets always enclose the
/// parentheses: the result is `[(` + `s` + `)]`.
pub proof fn lemma_brackets_enclose_parentheses(s: Seq<char>)
    ensures
        wrapped(s, true, true) == seq!['[', '('] + s + seq![')', ']'],
        wrapped(s, true, false) == seq!['('] + s + seq![')'],
        wrapped(s, false, true) == seq!['['] + s + seq![']'],
        wrapped(s, false, false) == s,
{
    reveal_strlit("(");
    reveal_strlit(")");
    reveal_strlit("[");
    reveal_strlit("]");
    assert(wrapped(s, true, true) =~= seq!['[', '('] + s + seq![')', ']']);
    assert(wrapped(s, true, false) =~= seq!['('] + s + seq![')']);
    assert(wrapped(s, false, true) =~= seq!['['] + s + seq![']']);
}

} // verus!
