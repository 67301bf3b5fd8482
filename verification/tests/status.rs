use git_home::status::{print_repo_status, staged_text, unstaged_text};

fn strings(tokens: &[&str]) -> Vec<String> {
    tokens.iter().map(|token| String::from(*token)).collect()
}

#[test]
fn nothing_to_report_is_up_to_date() {
    assert_eq!(print_repo_status(false, &Vec::new(), &Vec::new()), "Everything is upto date.\n");
    assert_eq!(print_repo_status(true, &Vec::new(), &Vec::new()), "Everything is upto date.\n");
}

#[test]
fn one_unstaged_and_one_staged_stand_in_their_own_sections() {
    let report = print_repo_status(false, &strings(&[".bashrc"]), &strings(&[".vimrc"]));
    assert_eq!(
        report,
        "Files with untracked changes:\n\tYou can run 'git home add -u' to add them to the index'\n\t.bashrc\nFiles with changes to be commited:\n\t$HOME/.vimrc\n"
    );
    assert!(!report.contains("upto date"));
}

#[test]
fn only_unstaged_changes() {
    assert_eq!(
        print_repo_status(false, &strings(&["a", "b"]), &Vec::new()),
        "Files with untracked changes:\n\tYou can run 'git home add -u' to add them to the index'\n\ta\n\tb\n"
    );
}

#[test]
fn only_staged_changes() {
    assert_eq!(
        print_repo_status(false, &Vec::new(), &strings(&["a", "b"])),
        "Files with changes to be commited:\n\t$HOME/a\n\t$HOME/b\n"
    );
}

#[test]
fn colours_wrap_each_section() {
    assert_eq!(
        print_repo_status(true, &strings(&["a"]), &strings(&["b"])),
        "\x1b[31mFiles with untracked changes:\n\tYou can run 'git home add -u' to add them to the index'\n\ta\n\x1b[0m\x1b[32mFiles with changes to be commited:\n\t$HOME/b\n\x1b[0m"
    );
}

#[test]
fn broken_listing_has_its_heading() {
    assert_eq!(
        unstaged_text(false, &Vec::new(), false),
        "Files with untracked changes:\n\tYou can run 'git home add -u' to add them to the index'\n"
    );
    assert_eq!(
        staged_text(true, &strings(&["a"]), false),
        "\x1b[32mFiles with changes to be commited:\n\t$HOME/a\n\x1b[0m"
    );
    assert_eq!(unstaged_text(true, &Vec::new(), true), "");
}
