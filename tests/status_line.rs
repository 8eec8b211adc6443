use grompt::changes::{classify, repo_status, repo_status_bin, ChangeState, FileStatus};
use grompt::format::{format_status, wrap, Head, RepoState, StatusError};
use grompt::icons::{create_icons, get_icon, parse_color, parse_override};
use grompt::options::{
    default_commit_ahead, default_commit_behind, default_fetch_icon, default_path,
    default_staged_string, default_unstaged_string, Options,
};
use grompt::remote::{commit_status, fetch_action, minutes_since_last, Divergence, FetchAction};
use grompt::text::{find_char, parse_byte, push_decimal, split_first, starts_with};

fn clean_file() -> FileStatus {
    FileStatus {
        wt_new: false,
        wt_modified: false,
        wt_deleted: false,
        wt_renamed: false,
        wt_typechange: false,
        index_new: false,
        index_modified: false,
        index_deleted: false,
        index_renamed: false,
        index_typechange: false,
        ignored: false,
    }
}

fn modified_file() -> FileStatus {
    FileStatus { wt_modified: true, ..clean_file() }
}

fn staged_file() -> FileStatus {
    FileStatus { index_new: true, ..clean_file() }
}

fn state(head: Head, statuses: Vec<FileStatus>) -> RepoState {
    RepoState {
        head,
        remote_url: None,
        statuses,
        divergence: Divergence::Unavailable,
        fetch: FetchAction::Nothing,
    }
}

fn main_branch() -> Head {
    Head::Branch("main".to_string())
}

#[test]
fn icon_override_first_match_wins() {
    let o = vec!["https://x|A".to_string(), "https://x.com|B".to_string()];
    assert_eq!(get_icon("https://x.com/repo", o, false), "A");
}

#[test]
fn icon_override_precedes_builtin() {
    let o = vec!["https://github.com|G".to_string()];
    assert_eq!(get_icon("https://github.com/a/b", o, false), "G");
}

#[test]
fn icon_builtin_hosts() {
    assert_eq!(get_icon("https://github.com/a/b", vec![], false), "\u{e708}");
    assert_eq!(get_icon("git@gitlab.com:a/b", vec![], false), "\u{f296} ");
    assert_eq!(get_icon("git@bitbucket.org:a/b", vec![], false), "\u{e703}");
}

#[test]
fn icon_unknown_host() {
    assert_eq!(get_icon("https://example.org/a", vec![], true), "\u{e702}");
    assert_eq!(get_icon("", vec![], false), "\u{e702}");
}

#[test]
fn icon_colored_builtin() {
    assert_eq!(
        get_icon("https://github.com/a/b", vec![], true),
        "\x1b[38;2;255;255;255m\u{e708}\x1b[39m"
    );
}

#[test]
fn icon_colored_override() {
    let o = vec!["https://h|X|1,20,255".to_string()];
    assert_eq!(get_icon("https://h/r", o, true), "\x1b[38;2;1;20;255mX\x1b[39m");
    let o = vec!["https://h|X|1,20,255".to_string()];
    assert_eq!(get_icon("https://h/r", o, false), "X");
    let o = vec!["https://h|X".to_string()];
    assert_eq!(get_icon("https://h/r", o, true), "X");
}

#[test]
fn malformed_overrides_are_dropped() {
    let o = vec![
        "nopipe".to_string(),
        "a|b|1,2".to_string(),
        "a|b|1,2,300".to_string(),
        "a|b|x,2,3".to_string(),
        "p|i|1,2,3".to_string(),
        "q|j".to_string(),
    ];
    let icons = create_icons(o);
    assert_eq!(icons.len(), 8);
    assert_eq!(icons[0], ("p".to_string(), "i".to_string(), Some([1, 2, 3])));
    assert_eq!(icons[1], ("q".to_string(), "j".to_string(), None));
    assert_eq!(icons[2], ("https://github.com/".to_string(), "\u{e708}".to_string(), Some([255, 255, 255])));
    assert_eq!(icons[7], ("git@bitbucket.org".to_string(), "\u{e703}".to_string(), Some([38, 132, 255])));
}

#[test]
fn override_parsing_fields() {
    assert_eq!(parse_override("a|b|c|d"), None);
    assert_eq!(
        parse_override("a|b|1,2,3|d"),
        Some(("a".to_string(), "b".to_string(), Some([1, 2, 3])))
    );
    assert_eq!(parse_override("|b"), Some(("".to_string(), "b".to_string(), None)));
    assert_eq!(parse_color("1,2,3,4"), Some([1, 2, 3]));
    assert_eq!(parse_color("1,2"), None);
    assert_eq!(parse_color(""), None);
}

#[test]
fn byte_parsing() {
    assert_eq!(parse_byte("0"), Some(0));
    assert_eq!(parse_byte("+7"), Some(7));
    assert_eq!(parse_byte("007"), Some(7));
    assert_eq!(parse_byte("255"), Some(255));
    assert_eq!(parse_byte("256"), None);
    assert_eq!(parse_byte("99999"), None);
    assert_eq!(parse_byte(""), None);
    assert_eq!(parse_byte("+"), None);
    assert_eq!(parse_byte("-1"), None);
    assert_eq!(parse_byte(" 1"), None);
}

#[test]
fn string_helpers() {
    assert!(starts_with("https://x.com", "https://x"));
    assert!(!starts_with("https://x", "https://x.com"));
    assert!(starts_with("abc", ""));
    assert_eq!(find_char("a|b|c", '|'), Some(1));
    assert_eq!(find_char("abc", '|'), None);
    assert_eq!(split_first("a|b|c", '|'), ("a".to_string(), Some("b|c".to_string())));
    assert_eq!(split_first("abc", '|'), ("abc".to_string(), None));
    let mut s = "n=".to_string();
    push_decimal(&mut s, 1024);
    assert_eq!(s, "n=1024");
    let mut z = String::new();
    push_decimal(&mut z, 0);
    assert_eq!(z, "0");
}

#[test]
fn modified_file_marks_unstaged() {
    let clean = vec![clean_file(), clean_file()];
    assert_eq!(repo_status_bin(&clean), (false, false));
    let mut more = clean.clone();
    more.push(modified_file());
    assert_eq!(repo_status_bin(&more), (true, false));
}

#[test]
fn classification_counts() {
    let both = FileStatus { wt_modified: true, index_modified: true, ..clean_file() };
    let ignored = FileStatus { wt_new: true, ignored: true, ..clean_file() };
    let s = vec![modified_file(), staged_file(), both, ignored, clean_file()];
    assert_eq!(repo_status(&s), (2, 2));
    assert_eq!(repo_status_bin(&s), (true, true));
    assert_eq!(classify(&s, true), ChangeState::Counted { unstaged: 2, staged: 2 });
    assert_eq!(classify(&s, false), ChangeState::Binary { has_unstaged: true, has_staged: true });
    assert_eq!(repo_status(&vec![ignored]), (0, 0));
    assert_eq!(repo_status_bin(&vec![]), (false, false));
}

#[test]
fn divergence_fallback() {
    assert_eq!(commit_status(Divergence::Unavailable), (0, 0));
    assert_eq!(commit_status(Divergence::Counts { ahead: 3, behind: 1 }), (3, 1));
}

#[test]
fn fetch_policy() {
    assert_eq!(fetch_action(None, Some(100), false), FetchAction::Nothing);
    assert_eq!(fetch_action(Some(10), None, true), FetchAction::Nothing);
    assert_eq!(fetch_action(Some(10), Some(9), false), FetchAction::Nothing);
    assert_eq!(fetch_action(Some(10), Some(10), false), FetchAction::Remind);
    assert_eq!(fetch_action(Some(10), Some(50), true), FetchAction::Fetch);
    assert_eq!(minutes_since_last(125), 2);
    assert_eq!(minutes_since_last(59), 0);
}

#[test]
fn defaults() {
    assert_eq!(default_path(), ".");
    assert_eq!(default_unstaged_string(), "*");
    assert_eq!(default_staged_string(), "+");
    assert_eq!(default_fetch_icon(), "\u{f0954} ");
    assert_eq!(default_commit_ahead(), "\u{ea9a}");
    assert_eq!(default_commit_behind(), "\u{eaa1}");
    let o = Options::file_defaults();
    assert_eq!(o.unstaged_string, "*");
    assert_eq!(o.fetch_time, None);
}

#[test]
fn separate_and_merged_changes() {
    let files = vec![modified_file(), staged_file()];
    let mut o = Options::file_defaults();
    o.separate_changes = true;
    assert_eq!(format_status(&o, &state(main_branch(), files.clone())), Ok("*+main".to_string()));
    o.separate_changes = false;
    assert_eq!(format_status(&o, &state(main_branch(), files.clone())), Ok("*main".to_string()));
    o.separate_changes = true;
    let staged_only = vec![staged_file()];
    assert_eq!(format_status(&o, &state(main_branch(), staged_only.clone())), Ok("+main".to_string()));
    o.separate_changes = false;
    assert_eq!(format_status(&o, &state(main_branch(), staged_only)), Ok("*main".to_string()));
}

#[test]
fn end_to_end_clean_and_modified() {
    let mut o = Options::file_defaults();
    assert_eq!(format_status(&o, &state(main_branch(), vec![clean_file()])), Ok("main".to_string()));
    assert_eq!(format_status(&o, &state(main_branch(), vec![modified_file()])), Ok("*main".to_string()));
    o.parentheses = true;
    assert_eq!(format_status(&o, &state(main_branch(), vec![modified_file()])), Ok("(*main)".to_string()));
}

#[test]
fn end_to_end_no_head() {
    let mut o = Options::file_defaults();
    assert_eq!(format_status(&o, &state(Head::Unborn, vec![])), Ok("no head".to_string()));
    o.square_brackets = true;
    assert_eq!(format_status(&o, &state(Head::Unborn, vec![])), Ok("[no head]".to_string()));
}

#[test]
fn unnamed_head_is_an_error() {
    let o = Options::file_defaults();
    let r = format_status(&o, &state(Head::Unnamed, vec![]));
    assert_eq!(r, Err(StatusError::NoBranchName));
    assert_eq!(StatusError::NoBranchName.message(), "Failed to get branch name");
}

#[test]
fn brackets_enclose_parentheses() {
    let mut o = Options::file_defaults();
    o.parentheses = true;
    o.square_brackets = true;
    assert_eq!(format_status(&o, &state(main_branch(), vec![])), Ok("[(main)]".to_string()));
    assert_eq!(wrap("x".to_string(), true, true), "[(x)]");
    assert_eq!(wrap("x".to_string(), false, true), "[x]");
    assert_eq!(wrap("x".to_string(), true, false), "(x)");
    assert_eq!(wrap("x".to_string(), false, false), "x");
}

#[test]
fn remote_icon_prefix() {
    let mut o = Options::file_defaults();
    o.remote_icon = true;
    assert_eq!(
        format_status(&o, &state(main_branch(), vec![])),
        Err(StatusError::NoRemoteConfigured)
    );
    assert_eq!(StatusError::NoRemoteConfigured.message(), "Failed to find any remotes!");
    assert_eq!(format_status(&o, &state(Head::Unborn, vec![])), Ok("no head".to_string()));
    assert_eq!(format_status(&o, &state(Head::Unnamed, vec![])), Err(StatusError::NoBranchName));
    let mut st = state(main_branch(), vec![modified_file()]);
    st.remote_url = Some("git@github.com:a/b.git".to_string());
    assert_eq!(format_status(&o, &st), Ok("\u{e708} *main".to_string()));
    st.remote_url = Some(String::new());
    assert_eq!(format_status(&o, &st), Ok("\u{e702} *main".to_string()));
}

#[test]
fn fetch_reminder_prefix() {
    let mut o = Options::file_defaults();
    o.remote_icon = true;
    let mut st = state(main_branch(), vec![]);
    st.remote_url = Some("https://example.org/r".to_string());
    st.fetch = FetchAction::Remind;
    assert_eq!(format_status(&o, &st), Ok("\u{f0954}  \u{e702} main".to_string()));
    st.fetch = FetchAction::Fetch;
    assert_eq!(format_status(&o, &st), Ok("\u{e702} main".to_string()));
}

#[test]
fn commit_arrows_binary() {
    let mut o = Options::file_defaults();
    o.commit_arrow = true;
    o.commit_ahead = "A".to_string();
    o.commit_behind = "B".to_string();
    let mut st = state(main_branch(), vec![]);
    assert_eq!(format_status(&o, &st), Ok("main".to_string()));
    st.divergence = Divergence::Counts { ahead: 2, behind: 1 };
    assert_eq!(format_status(&o, &st), Ok("main A/B".to_string()));
    st.divergence = Divergence::Counts { ahead: 2, behind: 0 };
    assert_eq!(format_status(&o, &st), Ok("main A".to_string()));
    st.divergence = Divergence::Counts { ahead: 0, behind: 5 };
    assert_eq!(format_status(&o, &st), Ok("main B".to_string()));
    o.commit_arrow = false;
    assert_eq!(format_status(&o, &st), Ok("main".to_string()));
}

#[test]
fn detailed_view() {
    let mut o = Options::file_defaults();
    o.detailed_info = true;
    o.commit_arrow = true;
    o.commit_ahead = "A".to_string();
    o.commit_behind = "B".to_string();
    let files = vec![modified_file(), modified_file(), staged_file()];
    let mut st = state(main_branch(), files);
    st.divergence = Divergence::Counts { ahead: 12, behind: 3 };
    assert_eq!(format_status(&o, &st), Ok("main, 2*, 1+, A12/B3".to_string()));
    st.divergence = Divergence::Counts { ahead: 0, behind: 3 };
    st.statuses = vec![staged_file()];
    assert_eq!(format_status(&o, &st), Ok("main, 1+, B 3".to_string()));
    st.divergence = Divergence::Counts { ahead: 7, behind: 0 };
    st.statuses = vec![modified_file()];
    assert_eq!(format_status(&o, &st), Ok("main, 1*, A 7".to_string()));
}
