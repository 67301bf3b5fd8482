use git_home::template::{gen_commit_template, strip_commit_template};

#[test]
fn template_is_an_empty_line_and_comments() {
    assert_eq!(
        gen_commit_template(),
        "\n# Please enter the commit message for your changes. Lines starting\n# with '#' will be ignored, and an empty message aborts the commit.\n#\n# Changes to be committed:"
    );
}

#[test]
fn untouched_template_strips_to_nothing() {
    assert_eq!(strip_commit_template(gen_commit_template()), "");
}

#[test]
fn comment_lines_are_removed() {
    let edited = String::from("fix typo\n# a comment\n");
    assert_eq!(strip_commit_template(edited), "fix typo");
}

#[test]
fn message_written_above_the_template_is_kept() {
    let mut edited = String::from("fix typo");
    edited.push_str(&gen_commit_template());
    assert_eq!(strip_commit_template(edited), "fix typo");
}

#[test]
fn lines_are_joined_without_line_endings() {
    assert_eq!(strip_commit_template(String::from("one\ntwo\r\nthree")), "onetwothree");
}

#[test]
fn carriage_return_stays_without_line_feed() {
    assert_eq!(strip_commit_template(String::from("one\rtwo")), "one\rtwo");
    assert_eq!(strip_commit_template(String::from("one\r")), "one\r");
}

#[test]
fn hash_inside_a_line_is_no_comment() {
    assert_eq!(strip_commit_template(String::from("fix #12\n #indented\n")), "fix #12 #indented");
}

#[test]
fn empty_and_all_comment_messages_strip_to_nothing() {
    assert_eq!(strip_commit_template(String::new()), "");
    assert_eq!(strip_commit_template(String::from("\n\n")), "");
    assert_eq!(strip_commit_template(String::from("# one\n#two\n#")), "");
}

#[test]
fn text_beyond_ascii_is_kept() {
    assert_eq!(strip_commit_template(String::from("größer\n# weg\nülk")), "größerülk");
}
