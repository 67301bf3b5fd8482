use git_home::args::{
    add_targets, format_args, scan_for_passthrough, AddArgs, AddMode, CommitArgs, CommitMode,
    ParseError, ProgMode,
};
use git_home::path::{PathError, Resolution};

fn strings(tokens: &[&str]) -> Vec<String> {
    tokens.iter().map(|token| String::from(*token)).collect()
}

fn found(path: &str) -> Resolution {
    Resolution::Found { path: String::from(path), exact: true }
}

fn home() -> Option<String> {
    Some(String::from("/home/ann"))
}

fn parse(tokens: &[&str]) -> Result<ProgMode, ParseError> {
    format_args(strings(tokens), &None, &home(), "ann", &Vec::new())
}

fn missing(cause: &str) -> Resolution {
    Resolution::Missing(String::from(cause))
}

fn unresolved(cause: &str) -> Result<ProgMode, ParseError> {
    Err(ParseError::Path(PathError::ResolutionError(String::from(cause))))
}

fn message(text: &str) -> ProgMode {
    ProgMode::Commit(CommitArgs { mode: CommitMode::Commit, message: Some(String::from(text)) })
}

#[test]
fn default_command_is_unknown() {
    assert_eq!(ProgMode::default(), ProgMode::Unknown);
}

#[test]
fn scan_without_separator() {
    assert_eq!(scan_for_passthrough(strings(&["status"])), (None, strings(&["status"])));
    assert_eq!(scan_for_passthrough(Vec::new()), (None, Vec::new()));
}

#[test]
fn scan_parts_at_the_first_separator_only() {
    assert_eq!(
        scan_for_passthrough(strings(&["commit", "-m", "x", "--", "log", "--", "-1"])),
        (Some(strings(&["log", "--", "-1"])), strings(&["commit", "-m", "x"]))
    );
}

#[test]
fn scan_with_nothing_after_the_separator() {
    assert_eq!(
        scan_for_passthrough(strings(&["status", "--"])),
        (Some(Vec::new()), strings(&["status"]))
    );
    assert_eq!(scan_for_passthrough(strings(&["--"])), (Some(Vec::new()), Vec::new()));
}

#[test]
fn scan_with_nothing_before_the_separator() {
    assert_eq!(
        scan_for_passthrough(strings(&["--", "log"])),
        (Some(strings(&["log"])), Vec::new())
    );
}

#[test]
fn keywords_without_arguments() {
    assert_eq!(parse(&["init"]), Ok(ProgMode::Init));
    assert_eq!(parse(&["log"]), Ok(ProgMode::Log));
    assert_eq!(parse(&["--help"]), Ok(ProgMode::Help));
    assert_eq!(parse(&["status"]), Ok(ProgMode::Status(false)));
}

#[test]
fn unknown_and_missing_keywords() {
    assert_eq!(parse(&[]), Ok(ProgMode::Unknown));
    assert_eq!(parse(&["push"]), Ok(ProgMode::Unknown));
    assert_eq!(parse(&["Init"]), Ok(ProgMode::Unknown));
    assert_eq!(parse(&[""]), Ok(ProgMode::Unknown));
}

#[test]
fn init_takes_no_argument() {
    assert_eq!(parse(&["init", "now"]), Err(ParseError::InitWithArguments));
}

#[test]
fn status_colour_goes_by_colorterm() {
    let args = || strings(&["status"]);
    let with =
        |value: &str| format_args(args(), &Some(String::from(value)), &home(), "ann", &Vec::new());
    assert_eq!(with("truecolor"), Ok(ProgMode::Status(true)));
    assert_eq!(with("24bit"), Ok(ProgMode::Status(true)));
    assert_eq!(with("256"), Ok(ProgMode::Status(false)));
    assert_eq!(with(""), Ok(ProgMode::Status(false)));
}

#[test]
fn commit_without_arguments_leaves_the_message_to_the_editor() {
    assert_eq!(
        parse(&["commit"]),
        Ok(ProgMode::Commit(CommitArgs { mode: CommitMode::Commit, message: None }))
    );
}

#[test]
fn commit_message_forms() {
    assert_eq!(parse(&["commit", "-m", "fix typo"]), Ok(message("fix typo")));
    assert_eq!(parse(&["commit", "-m", "fix typo", "more"]), Ok(message("fix typo")));
    assert_eq!(parse(&["commit", "--message=fix typo"]), Ok(message("fix typo")));
    assert_eq!(parse(&["commit", "--message=a=b"]), Ok(message("a=b")));
    assert_eq!(parse(&["commit", "--message="]), Ok(message("")));
    assert_eq!(parse(&["commit", "fix typo"]), Ok(message("fix typo")));
    assert_eq!(parse(&["commit", "--message"]), Ok(message("--message")));
}

#[test]
fn commit_m_without_message_is_refused() {
    assert_eq!(parse(&["commit", "-m"]), Err(ParseError::CommitWithoutMessage));
    assert_eq!(CommitArgs::new(strings(&["-m"])), Err(ParseError::CommitWithoutMessage));
}

#[test]
fn add_all_flags() {
    let all = AddArgs { mode: AddMode::All, values: Vec::new() };
    assert_eq!(AddArgs::new(strings(&["-u"]), &Vec::new(), &home(), "ann"), Ok(all));
    assert_eq!(
        parse(&["add", "--update"]),
        Ok(ProgMode::Add(AddArgs { mode: AddMode::All, values: Vec::new() }))
    );
    assert_eq!(
        parse(&["add", "--update=yes", "ignored"]),
        Ok(ProgMode::Add(AddArgs { mode: AddMode::All, values: Vec::new() }))
    );
}

#[test]
fn add_without_paths_is_refused() {
    assert_eq!(parse(&["add"]), Err(ParseError::AddWithoutPaths));
}

#[test]
fn add_holds_the_resolved_paths_in_order() {
    let resolutions = vec![found("/home/ann/.bashrc"), found("/home/ann/.config/x")];
    assert_eq!(
        format_args(strings(&["add", ".bashrc", ".config/x"]), &None, &home(), "ann", &resolutions),
        Ok(ProgMode::Add(AddArgs {
            mode: AddMode::Normal,
            values: strings(&["/home/ann/.bashrc", "/home/ann/.config/x"]),
        }))
    );
}

#[test]
fn add_gives_the_error_of_the_first_refused_path() {
    let resolutions = vec![found("/home/ann/.bashrc"), found("/etc/passwd"), missing("gone")];
    assert_eq!(
        format_args(strings(&["add", "a", "b", "c"]), &None, &home(), "ann", &resolutions),
        Err(ParseError::Path(PathError::NotInHomeDirectory))
    );
    let resolutions = vec![missing("gone"), found("/etc/passwd")];
    assert_eq!(
        format_args(strings(&["add", "a", "b"]), &None, &home(), "ann", &resolutions),
        unresolved("gone")
    );
}

#[test]
fn add_counts_a_path_without_resolution_as_unresolved() {
    let resolutions = vec![found("/home/ann/.bashrc")];
    assert_eq!(
        format_args(strings(&["add", "a", "b"]), &None, &home(), "ann", &resolutions),
        unresolved("")
    );
}

#[test]
fn add_refuses_a_path_outside_home_with_the_user_as_segment() {
    let resolutions = vec![found("/opt/ann/x")];
    assert_eq!(
        format_args(strings(&["add", "x"]), &None, &home(), "ann", &resolutions),
        Err(ParseError::Path(PathError::NotInHomeDirectory))
    );
}

#[test]
fn flag_after_a_path_is_a_path() {
    let resolutions = vec![found("/home/ann/a"), missing("No such file")];
    assert_eq!(
        format_args(strings(&["add", "a", "-u"]), &None, &home(), "ann", &resolutions),
        unresolved("No such file")
    );
}

#[test]
fn targets_are_the_files_that_add_names() {
    assert_eq!(add_targets(&strings(&["add", "a", "b"])), strings(&["a", "b"]));
    assert_eq!(add_targets(&strings(&["add", "a", "--", "b"])), strings(&["a"]));
    assert_eq!(add_targets(&strings(&["add", "-u", "a"])), Vec::<String>::new());
    assert_eq!(add_targets(&strings(&["add"])), Vec::<String>::new());
    assert_eq!(add_targets(&strings(&["commit", "a"])), Vec::<String>::new());
    assert_eq!(add_targets(&strings(&["--", "add", "a"])), Vec::<String>::new());
}

#[test]
fn passthrough_holds_the_command_and_the_tokens() {
    assert_eq!(
        parse(&["commit", "-m", "fix typo", "--", "log", "-1"]),
        Ok(ProgMode::Passthrough(Some(Box::new(message("fix typo"))), strings(&["log", "-1"])))
    );
}

#[test]
fn passthrough_without_command() {
    assert_eq!(
        parse(&["--", "status", "--short"]),
        Ok(ProgMode::Passthrough(None, strings(&["status", "--short"])))
    );
    assert_eq!(
        parse(&["frobnicate", "--", "status"]),
        Ok(ProgMode::Passthrough(None, strings(&["status"])))
    );
}

#[test]
fn later_separators_are_handed_on() {
    assert_eq!(
        parse(&["log", "--", "checkout", "--", "file"]),
        Ok(ProgMode::Passthrough(
            Some(Box::new(ProgMode::Log)),
            strings(&["checkout", "--", "file"])
        ))
    );
}

#[test]
fn separator_without_tokens_is_a_passthrough_of_none() {
    assert_eq!(
        parse(&["log", "--"]),
        Ok(ProgMode::Passthrough(Some(Box::new(ProgMode::Log)), Vec::new()))
    );
    assert_eq!(parse(&["--"]), Ok(ProgMode::Passthrough(None, Vec::new())));
    assert_eq!(
        parse(&["status", "--"]),
        Ok(ProgMode::Passthrough(Some(Box::new(ProgMode::Status(false))), Vec::new()))
    );
}

#[test]
fn error_before_the_separator_wins() {
    assert_eq!(parse(&["init", "x", "--", "log"]), Err(ParseError::InitWithArguments));
}

#[test]
fn add_of_files_needs_a_home_directory() {
    let resolutions = vec![found("/home/ann/a")];
    assert_eq!(
        format_args(strings(&["add", "a"]), &None, &None, "ann", &resolutions),
        Err(ParseError::HomeNotSet)
    );
    assert_eq!(
        format_args(strings(&["add", "-u"]), &None, &None, "ann", &Vec::new()),
        Ok(ProgMode::Add(AddArgs { mode: AddMode::All, values: Vec::new() }))
    );
    assert_eq!(
        format_args(strings(&["add"]), &None, &None, "ann", &Vec::new()),
        Err(ParseError::AddWithoutPaths)
    );
}
