//! The text of the status report: the files changed in the work tree but not
//! staged, and the files staged but not committed.

use crate::text::texts;
use vstd::prelude::*;
use vstd::string::*;

verus! {

/// The terminal sequence that switches to the warning colour.
pub open spec fn red() -> Seq<char> {
    "\x1b[31m"@
}

/// The terminal sequence that switches to the success colour.
pub open spec fn green() -> Seq<char> {
    "\x1b[32m"@
}

/// The terminal sequence that switches colours off.
pub open spec fn reset() -> Seq<char> {
    "\x1b[0m"@
}

/// The heading above the files that are changed but not staged.
pub open spec fn unstaged_heading() -> Seq<char> {
    "Files with untracked changes:\n\tYou can run 'git home add -u' to add them to the index'\n"@
}

/// The heading above the files that are staged but not committed.
pub open spec fn staged_heading() -> Seq<char> {
    "Files with changes to be commited:\n"@
}

/// The line that says that nothing is changed and nothing is staged.
pub open spec fn up_to_date_notice() -> Seq<char> {
    "Everything is upto date.\n"@
}

/// One line for each path of `paths`, in order: `lead`, the path, a line feed.
pub open spec fn listing(lead: Seq<char>, paths: Seq<Seq<char>>) -> Seq<char>
    decreases paths.len(),
{
    if paths.len() == 0 {
        Seq::empty()
    } else {
        listing(lead, paths.drop_last()) + lead + paths.last() + seq!['\n']
    }
}

/// One section of the report. It is empty where there is nothing to list.
/// Otherwise it is the heading and the listing, in `color` where the terminal
/// has colours. A listing that is not `complete` broke off at a path that is
/// no text: its section has the heading even where no path came before.
pub open spec fn section(
    has_color: bool,
    color: Seq<char>,
    heading: Seq<char>,
    lead: Seq<char>,
    paths: Seq<Seq<char>>,
    complete: bool,
) -> Seq<char> {
    if paths.len() == 0 && complete {
        Seq::empty()
    } else if has_color {
        color + heading + listing(lead, paths) + reset()
    } else {
        heading + listing(lead, paths)
    }
}

/// The section of the files that are changed in the work tree but not staged.
pub open spec fn unstaged_section(has_color: bool, paths: Seq<Seq<char>>, complete: bool) -> Seq<
    char,
> {
    section(has_color, red(), unstaged_heading(), "\t"@, paths, complete)
}

/// The section of the files that are staged but not committed.
pub open spec fn staged_section(has_color: bool, paths: Seq<Seq<char>>, complete: bool) -> Seq<
    char,
> {
    section(has_color, green(), staged_heading(), "\t$HOME/"@, paths, complete)
}

/// What closes the report: the notice that everything is up to date, exactly
/// where neither listing holds a path.
pub open spec fn closing_notice(nothing_unstaged: bool, nothing_staged: bool) -> Seq<char> {
    if nothing_unstaged && nothing_staged {
        up_to_date_notice()
    } else {
        Seq::empty()
    }
}

/// The whole report for two complete listings.
pub open spec fn status_report(
    has_color: bool,
    unstaged: Seq<Seq<char>>,
    staged: Seq<Seq<char>>,
) -> Seq<char> {
    unstaged_section(has_color, unstaged, true) + staged_section(has_color, staged, true)
        + closing_notice(unstaged.len() == 0, staged.len() == 0)
}

/// Writes one section of the report.
pub fn changes_section(
    has_color: bool,
    color: &str,
    heading: &str,
    lead: &str,
    paths: &Vec<String>,
    complete: bool,
) -> (text: String)
    ensures
        text@ == section(has_color, color@, heading@, lead@, texts(paths@), complete),
{
    let mut text = String::new();
    if paths.len() == 0 && complete {
        return text;
    }
    if has_color {
        text.append(color);
    }
    text.append(heading);
    let ghost head = text@;
    let mut i: usize = 0;
    while i < paths.len()
        invariant
            i <= paths.len(),
            text@ == head + listing(lead@, texts(paths@).take(i as int)),
        decreases paths.len() - i,
    {
        let ghost before = text@;
        text.append(lead);
        text.append(paths[i].as_str());
        text.append("\n");
        proof {
            reveal_strlit("\n");
            let shown = texts(paths@).take(i as int + 1);
            assert(shown.drop_last() =~= texts(paths@).take(i as int));
            assert(shown.last() == paths@[i as int]@);
            assert("\n"@ =~= seq!['\n']);
            assert(text@ =~= head + listing(lead@, shown));
        }
        i += 1;
    }
    assert(texts(paths@).take(paths.len() as int) =~= texts(paths@));
    if has_color {
        text.append("\x1b[0m");
    }
    assert(text@ =~= section(has_color, color@, heading@, lead@, texts(paths@), complete));
    text
}

/// The section of the files that are changed in the work tree but not staged.
pub fn unstaged_text(has_color: bool, paths: &Vec<String>, complete: bool) -> (text: String)
    ensures
        text@ == unstaged_section(has_color, texts(paths@), complete),
{
    changes_section(
        has_color,
        "\x1b[31m",
        "Files with untracked changes:\n\tYou can run 'git home add -u' to add them to the index'\n",
        "\t",
        paths,
        complete,
    )
}

/// The section of the files that are staged but not committed.
pub fn staged_text(has_color: bool, paths: &Vec<String>, complete: bool) -> (text: String)
    ensures
        text@ == staged_section(has_color, texts(paths@), complete),
{
    changes_section(
        has_color,
        "\x1b[32m",
        "Files with changes to be commited:\n",
        "\t$HOME/",
        paths,
        complete,
    )
}

/// The whole status report for the two listings, each complete.
pub fn print_repo_status(has_color: bool, unstaged: &Vec<String>, staged: &Vec<String>) -> (report:
    String)
    ensures
        report@ == status_report(has_color, texts(unstaged@), texts(staged@)),
{
    let mut report = unstaged_text(has_color, unstaged, true);
    let second = staged_text(has_color, staged, true);
    report.append(second.as_str());
    if unstaged.len() == 0 && staged.len() == 0 {
        report.append("Everything is upto date.\n");
    }
    assert(report@ =~= status_report(has_color, texts(unstaged@), texts(staged@)));
    report
}

} // verus!
