//! Divergence from the upstream branch and the fetch-staleness policy.
use vstd::prelude::*;

verus! {

/// Commits ahead of and behind the upstream, when an upstream resolves.
#[derive(Clone, Copy, Debug, PartialEq, Eq, Structural)]
pub enum Divergence {
    /// No upstream is configured or it does not resolve (e.g. a detached HEAD).
    Unavailable,
    Counts { ahead: usize, behind: usize },
}

/// What to do about the last fetch.
#[derive(Clone, Copy, Debug, PartialEq, Eq, Structural)]
pub enum FetchAction {
    /// No fetch is due, or none is configured, or the last one is unknown.
    Nothing,
    /// A fetch is due: show the reminder.
    Remind,
    /// A fetch is due and should be made; no reminder is shown.
    Fetch,
}

pub open spec fn divergence_counts(d: Divergence) -> (usize, usize) {
    match d {
        Divergence::Unavailable => (0, 0),
        Divergence::Counts { ahead, behind } => (ahead, behind),
    }
}

/// The commits ahead of and behind the upstream; `(0, 0)` when there is none.
pub fn commit_status(d: Divergence) -> (r: (usize, usize))
    ensures
        r == divergence_counts(d),
        d == Divergence::Unavailable ==> r == (0usize, 0usize),
{
    match d {
        Divergence::Unavailable => (0, 0),
        Divergence::Counts { ahead, behind } => (ahead, behind),
    }
}

/// Whole minutes in an elapsed number of seconds.
pub fn minutes_since_last(elapsed_secs: u64) -> (r: u64)
    ensures
        r == elapsed_secs / 60,
{
    elapsed_secs / 60
}

pub open spec fn fetch_decision(
    fetch_time: Option<u64>,
    minutes_since: Option<u64>,
    should_fetch: bool,
) -> FetchAction {
    match (fetch_time, minutes_since) {
        (Some(limit), Some(m)) => if m < limit {
            FetchAction::Nothing
        } else if should_fetch {
            FetchAction::Fetch
        } else {
            FetchAction::Remind
        },
        _ => FetchAction::Nothing,
    }
}

/// The fetch policy: with a threshold configured and the minutes since the
/// last fetch known, a fetch is due once they reach the threshold; it is
/// then made when `should_fetch` is set, else reminded of.
pub fn fetch_action(fetch_time: Option<u64>, minutes_since: Option<u64>, should_fetch: bool) -> (r:
    FetchAction)
    ensures
        r == fetch_decision(fetch_time, minutes_since, should_fetch),
{
    match (fetch_time, minutes_since) {
        (Some(limit), Some(m)) => {
            if m < limit {
                FetchAction::Nothing
            } else if should_fetch {
                FetchAction::Fetch
            } else {
                FetchAction::Remind
            }
        },
        _ => FetchAction::Nothing,
    }
}

} // verus!
