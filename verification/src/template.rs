//! The commit message template shown in the editor, and how an edited message
//! is cleaned of its comment lines.

use crate::text::{chars_of, find_from, lemma_position_of, position_of};
use vstd::prelude::*;
use vstd::string::*;

verus! {

/// The position of the first line feed in `text`, or the length of `text`
/// where it holds none.
pub open spec fn first_newline(text: Seq<char>) -> nat {
    position_of(text, '\n')
}

/// The first line of `text`, without its line ending. A line ends at a line
/// feed; a carriage return just before that line feed belongs to the ending.
pub open spec fn first_line(text: Seq<char>) -> Seq<char> {
    let k = first_newline(text) as int;
    if 0 < k < text.len() && text[k - 1] == '\r' {
        text.subrange(0, k - 1)
    } else {
        text.subrange(0, k)
    }
}

/// What follows the first line of `text` and its line ending.
pub open spec fn after_first_line(text: Seq<char>) -> Seq<char> {
    let k = first_newline(text) as int;
    if k < text.len() {
        text.subrange(k + 1, text.len() as int)
    } else {
        Seq::empty()
    }
}

/// The lines of `text`. A line ending after the last line is optional: it
/// adds no empty line.
pub open spec fn message_lines(text: Seq<char>) -> Seq<Seq<char>>
    decreases text.len(),
{
    if text.len() == 0 {
        Seq::empty()
    } else {
        seq![first_line(text)] + message_lines(after_first_line(text))
    }
}

/// Whether `line` is a comment line of a commit message: its first character
/// is `#`.
pub open spec fn is_comment_line(line: Seq<char>) -> bool {
    line.len() > 0 && line[0] == '#'
}

/// The lines of `lines` that are no comment lines, joined with nothing
/// between them.
pub open spec fn joined_without_comments(lines: Seq<Seq<char>>) -> Seq<char>
    decreases lines.len(),
{
    if lines.len() == 0 {
        Seq::empty()
    } else if is_comment_line(lines[0]) {
        joined_without_comments(lines.drop_first())
    } else {
        lines[0] + joined_without_comments(lines.drop_first())
    }
}

/// The message that `text` stands for: its lines, without the comment lines
/// and without the line endings.
pub open spec fn stripped_message(text: Seq<char>) -> Seq<char> {
    joined_without_comments(message_lines(text))
}

/// The template that the editor opens with: an empty first line for the
/// message, then comment lines of instructions.
pub open spec fn commit_template() -> Seq<char> {
    "
# Please enter the commit message for your changes. Lines starting
# with '#' will be ignored, and an empty message aborts the commit.
#
# Changes to be committed:"@
}

/// The text that the editor is opened with when a commit has no message.
pub fn gen_commit_template() -> (template: String)
    ensures
        template@ == commit_template(),
{
    String::from_str(
        "
# Please enter the commit message for your changes. Lines starting
# with '#' will be ignored, and an empty message aborts the commit.
#
# Changes to be committed:",
    )
}

/// Removes the comment lines and the line endings from an edited commit
/// message.
pub fn strip_commit_template(string: String) -> (message: String)
    ensures
        message@ == stripped_message(string@),
{
    let text = string.as_str();
    let chars = chars_of(text);
    let n = chars.len();
    let mut message = String::new();
    let mut start: usize = 0;
    assert(text@.subrange(0, n as int) =~= text@);
    assert(message@ + stripped_message(text@) =~= stripped_message(text@));
    while start < n
        invariant
            chars@ == text@,
            n == chars.len(),
            start <= n,
            stripped_message(text@) == message@ + stripped_message(
                text@.subrange(start as int, n as int),
            ),
        decreases n - start,
    {
        let end = find_from(&chars, start, '\n');
        let stop = if start < end && end < n && chars[end - 1] == '\r' {
            end - 1
        } else {
            end
        };
        let next = if end < n {
            end + 1
        } else {
            n
        };
        proof {
            let rest = text@.subrange(start as int, n as int);
            assert(first_line(rest) =~= text@.subrange(start as int, stop as int));
            assert(after_first_line(rest) =~= text@.subrange(next as int, n as int));
            let lines = message_lines(rest);
            assert(lines.drop_first() =~= message_lines(after_first_line(rest)));
            assert(lines[0] == first_line(rest));
        }
        let ghost before = message@;
        if !(start < stop && chars[start] == '#') {
            message.append(text.substring_char(start, stop));
        }
        proof {
            let tail = stripped_message(text@.subrange(next as int, n as int));
            let line = text@.subrange(start as int, stop as int);
            if !is_comment_line(line) {
                assert((before + line) + tail =~= before + (line + tail));
            }
        }
        start = next;
    }
    assert(text@.subrange(n as int, n as int) =~= Seq::<char>::empty());
    message
}

/// Whether nothing of `lines` is left once the comment lines are gone:
/// every line is empty or a comment line.
pub open spec fn only_comments(lines: Seq<Seq<char>>) -> bool {
    forall|i: int| 0 <= i < lines.len() ==> lines[i].len() == 0 || is_comment_line(#[trigger] lines[i])
}

/// Lines join to nothing exactly where each is empty or a comment line.
pub proof fn lemma_joined_is_empty(lines: Seq<Seq<char>>)
    ensures
        joined_without_comments(lines).len() == 0 <==> only_comments(lines),
    decreases lines.len(),
{
    if lines.len() > 0 {
        let rest = lines.drop_first();
        lemma_joined_is_empty(rest);
        if only_comments(lines) {
            assert forall|i: int| 0 <= i < rest.len() implies rest[i].len() == 0
                || is_comment_line(#[trigger] rest[i]) by {
                assert(rest[i] == lines[i + 1]);
            }
            assert(lines[0].len() == 0 || is_comment_line(lines[0]));
        }
        if joined_without_comments(lines).len() == 0 {
            assert forall|i: int| 0 <= i < lines.len() implies lines[i].len() == 0
                || is_comment_line(#[trigger] lines[i]) by {
                if i > 0 {
                    assert(lines[i] == rest[i - 1]);
                }
            }
        }
    }
}

/// An edited message is empty once it is stripped exactly where each of its
/// lines is empty or a comment line.
pub proof fn law_empty_message(text: Seq<char>)
    ensures
        stripped_message(text).len() == 0 <==> only_comments(message_lines(text)),
{
    lemma_joined_is_empty(message_lines(text));
}

/// What is left of a text that begins with a comment line of `k`
/// characters and a line feed.
proof fn lemma_comment_line(text: Seq<char>, k: int)
    requires
        0 < k < text.len(),
        text[0] == '#',
        text[k] == '\n',
        forall|j: int| 0 <= j < k ==> text[j] != '\n',
    ensures
        stripped_message(text) == stripped_message(text.subrange(k + 1, text.len() as int)),
{
    lemma_position_of(text, '\n', k);
    let lines = message_lines(text);
    assert(lines.drop_first() =~= message_lines(after_first_line(text)));
    assert(first_line(text)[0] == text[0]);
}

/// The template is an empty message: leaving the editor without writing
/// anything calls the commit off.
pub proof fn law_untouched_template_is_empty()
    ensures
        stripped_message(commit_template()).len() == 0,
{
    reveal_strlit(
        "
# Please enter the commit message for your changes. Lines starting
# with '#' will be ignored, and an empty message aborts the commit.
#
# Changes to be committed:",
    );
    let whole = commit_template();
    let first = whole.subrange(1, 164);
    let second = first.subrange(67, 163);
    let third = second.subrange(68, 96);
    let fourth = third.subrange(2, 28);
    assert(whole.len() == 164);
    assert(stripped_message(whole) == stripped_message(first)) by {
        lemma_position_of(whole, '\n', 0);
        assert(message_lines(whole).drop_first() =~= message_lines(after_first_line(whole)));
        assert(first_line(whole).len() == 0);
    }
    assert(stripped_message(first) == stripped_message(second)) by {
        assert forall|j: int| 0 <= j < 66 implies first[j] != '\n' by {
            assert(first[j] == whole[j + 1]);
        }
        lemma_comment_line(first, 66);
    }
    assert(stripped_message(second) == stripped_message(third)) by {
        assert forall|j: int| 0 <= j < 67 implies second[j] != '\n' by {
            assert(second[j] == whole[j + 68]);
        }
        lemma_comment_line(second, 67);
    }
    assert(stripped_message(third) == stripped_message(fourth)) by {
        assert(third[0] == whole[136]);
        assert(third[1] == whole[137]);
        lemma_comment_line(third, 1);
    }
    assert(stripped_message(fourth).len() == 0) by {
        assert forall|j: int| 0 <= j < 26 implies fourth[j] != '\n' by {
            assert(fourth[j] == whole[j + 138]);
        }
        lemma_position_of(fourth, '\n', 26);
        assert(after_first_line(fourth) =~= Seq::<char>::empty());
        assert(message_lines(fourth).drop_first() =~= message_lines(after_first_line(fourth)));
        assert(first_line(fourth)[0] == whole[138]);
        let lines = message_lines(fourth);
        assert(lines[0] == first_line(fourth));
        assert(lines.drop_first().len() == 0);
        assert(joined_without_comments(lines) == joined_without_comments(lines.drop_first()));
    }
}

} // verus!
