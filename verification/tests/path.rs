use git_home::path::{
    begins_with, canonicalize_file_path, is_in_home, path_below_home, split_segments,
    starts_at_root, PathError, Resolution,
};

const HOME: &str = "/home/ann";

fn found(path: &str) -> Resolution {
    Resolution::Found { path: String::from(path), exact: true }
}

fn check(path: &str) -> Result<String, PathError> {
    canonicalize_file_path(&found(path), HOME, "ann")
}

fn strings(tokens: &[&str]) -> Vec<String> {
    tokens.iter().map(|token| String::from(*token)).collect()
}

#[test]
fn path_in_home_is_handed_back() {
    assert_eq!(check("/home/ann/.bashrc"), Ok(String::from("/home/ann/.bashrc")));
}

#[test]
fn home_directory_itself_is_accepted() {
    assert_eq!(check("/home/ann"), Ok(String::from("/home/ann")));
}

#[test]
fn path_of_another_user_is_refused() {
    assert_eq!(check("/home/bob/.bashrc"), Err(PathError::NotInHomeDirectory));
}

#[test]
fn path_outside_any_home_is_refused() {
    assert_eq!(check("/etc/passwd"), Err(PathError::NotInHomeDirectory));
}

#[test]
fn path_outside_home_with_the_user_as_second_segment_is_refused() {
    assert_eq!(check("/opt/ann/x"), Err(PathError::NotInHomeDirectory));
    assert_eq!(check("/opt/ann"), Err(PathError::NotInHomeDirectory));
    assert_eq!(
        canonicalize_file_path(&found("/opt/alice/cfg"), "/home/alice", "alice"),
        Err(PathError::NotInHomeDirectory)
    );
}

#[test]
fn home_of_another_owner_is_refused() {
    assert_eq!(
        canonicalize_file_path(&found("/home/bob/x"), "/home/bob", "ann"),
        Err(PathError::NotInHomeDirectory)
    );
}

#[test]
fn root_and_top_level_are_refused() {
    assert_eq!(check("/"), Err(PathError::NotInHomeDirectory));
    assert_eq!(check("/home"), Err(PathError::NotInHomeDirectory));
    assert_eq!(check(""), Err(PathError::NotInHomeDirectory));
}

#[test]
fn relative_path_is_refused() {
    assert_eq!(check("home/ann/.bashrc"), Err(PathError::NotInHomeDirectory));
}

#[test]
fn home_that_is_empty_or_relative_holds_no_path() {
    assert_eq!(
        canonicalize_file_path(&found("/home/ann/x"), "", "ann"),
        Err(PathError::NotInHomeDirectory)
    );
    assert_eq!(
        canonicalize_file_path(&found("/home/ann/x"), "home/ann", "ann"),
        Err(PathError::NotInHomeDirectory)
    );
}

#[test]
fn user_name_as_prefix_only_is_refused() {
    assert_eq!(check("/home/anna/.bashrc"), Err(PathError::NotInHomeDirectory));
}

#[test]
fn unresolved_path_is_a_resolution_error_with_its_cause() {
    assert_eq!(
        canonicalize_file_path(&Resolution::Missing(String::from("No such file")), HOME, "ann"),
        Err(PathError::ResolutionError(String::from("No such file")))
    );
}

#[test]
fn path_that_is_no_text_is_an_encoding_error() {
    let resolution =
        Resolution::Found { path: String::from("/home/ann/\u{fffd}"), exact: false };
    assert_eq!(canonicalize_file_path(&resolution, HOME, "ann"), Err(PathError::EncodingError));
}

#[test]
fn path_outside_home_that_is_no_text_is_refused_as_outside() {
    let resolution = Resolution::Found { path: String::from("/etc/\u{fffd}"), exact: false };
    assert_eq!(
        canonicalize_file_path(&resolution, HOME, "ann"),
        Err(PathError::NotInHomeDirectory)
    );
}

#[test]
fn segments_are_the_pieces_between_slashes() {
    assert_eq!(split_segments("/home/ann/a/b.txt"), vec!["home", "ann", "a", "b.txt"]);
    assert_eq!(split_segments("//home///ann/"), vec!["home", "ann"]);
    assert_eq!(split_segments("/"), Vec::<String>::new());
    assert_eq!(split_segments(""), Vec::<String>::new());
    assert_eq!(split_segments("plain"), vec!["plain"]);
}

#[test]
fn rooted_paths_begin_with_a_slash() {
    assert!(starts_at_root("/"));
    assert!(starts_at_root("/home"));
    assert!(!starts_at_root(""));
    assert!(!starts_at_root("home/"));
}

#[test]
fn list_begins_with_its_first_strings() {
    assert!(begins_with(&strings(&["a", "b", "c"]), &strings(&["a", "b"])));
    assert!(begins_with(&strings(&["a"]), &strings(&[])));
    assert!(begins_with(&strings(&["a"]), &strings(&["a"])));
    assert!(!begins_with(&strings(&["a", "b"]), &strings(&["b"])));
    assert!(!begins_with(&strings(&["a"]), &strings(&["a", "b"])));
}

#[test]
fn in_home_goes_by_the_home_directory_and_the_owner() {
    assert!(is_in_home("/home/ann/x", "/home/ann", "ann"));
    assert!(is_in_home("/Users/ann/x", "/Users/ann", "ann"));
    assert!(is_in_home("/home/ann/x", "/home/ann/", "ann"));
    assert!(!is_in_home("/Users/ann/x", "/home/ann", "ann"));
    assert!(!is_in_home("/home/ann/x", "/home/ann", "bob"));
    assert!(!is_in_home("/home/ann/x", "/home/ann/x/y", "ann"));
    assert!(!is_in_home("/ann", "/ann", "ann"));
}

#[test]
fn path_below_home_drops_the_segments_of_home() {
    assert_eq!(path_below_home("/home/ann/.config/nvim/init.lua", HOME), ".config/nvim/init.lua");
    assert_eq!(path_below_home("/home/ann/.bashrc", HOME), ".bashrc");
    assert_eq!(path_below_home("/home/ann", HOME), "");
    assert_eq!(path_below_home("/home", HOME), "");
    assert_eq!(path_below_home("/data/homes/ann/x", "/data/homes/ann"), "x");
}
