//! The command line: the commands, and how the arguments after the program's
//! name are read as one of them.

use crate::path::{
    canonicalize_file_path, checked_path, PathError, PathErrorView, Resolution, ResolutionView,
};
use crate::text::{
    chars_of, copy_from, copy_text, lemma_position_of, lemma_position_of_is_first,
    lemma_texts_push, position_of, same_text, slice_of, starts_with, texts,
};
use vstd::prelude::*;
use vstd::string::*;

verus! {

/// How `add` chooses the files to stage.
#[derive(Debug, Clone, Copy, PartialEq, Eq, Structural)]
pub enum AddMode {
    /// The files named on the command line.
    Normal,
    /// Every tracked file that is modified in the work tree.
    All,
}

/// The arguments of `add`.
#[derive(Debug, PartialEq, Eq)]
pub struct AddArgs {
    pub mode: AddMode,
    /// The files to stage, each an absolute path in the user's home
    /// directory. Empty in mode `All`, and only there.
    pub values: Vec<String>,
}

/// An `AddArgs` over sequences of characters.
pub struct AddArgsView {
    pub mode: AddMode,
    pub values: Seq<Seq<char>>,
}

impl View for AddArgs {
    type V = AddArgsView;

    open spec fn view(&self) -> AddArgsView {
        AddArgsView { mode: self.mode, values: texts(self.values@) }
    }
}

/// What `commit` does.
#[derive(Debug, Clone, Copy, PartialEq, Eq, Structural)]
pub enum CommitMode {
    /// Commits the staged changes.
    Commit,
}

/// The arguments of `commit`.
#[derive(Debug, PartialEq, Eq)]
pub struct CommitArgs {
    pub mode: CommitMode,
    /// The message given on the command line. Where there is none, the
    /// message is to be written in an editor.
    pub message: Option<String>,
}

/// A `CommitArgs` over sequences of characters.
pub struct CommitArgsView {
    pub mode: CommitMode,
    pub message: Option<Seq<char>>,
}

impl View for CommitArgs {
    type V = CommitArgsView;

    open spec fn view(&self) -> CommitArgsView {
        CommitArgsView {
            mode: self.mode,
            message: match self.message {
                Some(text) => Some(text@),
                None => None,
            },
        }
    }
}

/// A command, as read from the command line.
#[derive(Debug, PartialEq, Eq)]
pub enum ProgMode {
    Add(AddArgs),
    Init,
    /// Holds whether the terminal shows colours.
    Status(bool),
    Commit(CommitArgs),
    Log,
    Help,
    /// No command, or one that is not known.
    Unknown,
    /// Runs the first part, if there is one, then hands the second to git as
    /// its arguments.
    Passthrough(Option<Box<ProgMode>>, Vec<String>),
}

/// A `ProgMode` over sequences of characters.
pub enum CommandView {
    Add(AddArgsView),
    Init,
    Status(bool),
    Commit(CommitArgsView),
    Log,
    Help,
    Unknown,
    Passthrough(Option<Box<CommandView>>, Seq<Seq<char>>),
}

/// The view of a command.
pub open spec fn command_view(command: ProgMode) -> CommandView
    decreases command,
{
    match command {
        ProgMode::Add(args) => CommandView::Add(args@),
        ProgMode::Init => CommandView::Init,
        ProgMode::Status(color) => CommandView::Status(color),
        ProgMode::Commit(args) => CommandView::Commit(args@),
        ProgMode::Log => CommandView::Log,
        ProgMode::Help => CommandView::Help,
        ProgMode::Unknown => CommandView::Unknown,
        ProgMode::Passthrough(None, tokens) => CommandView::Passthrough(None, texts(tokens@)),
        ProgMode::Passthrough(Some(first), tokens) => CommandView::Passthrough(
            Some(Box::new(command_view(*first))),
            texts(tokens@),
        ),
    }
}

impl View for ProgMode {
    type V = CommandView;

    open spec fn view(&self) -> CommandView {
        command_view(*self)
    }
}

impl Default for ProgMode {
    fn default() -> (mode: ProgMode)
        ensures
            mode@ == CommandView::Unknown,
    {
        ProgMode::Unknown
    }
}

/// The token that parts a command from what is handed on to git.
pub open spec fn separator() -> Seq<char> {
    "--"@
}

/// The tokens before the first separator: all of them where there is none.
pub open spec fn primary_tokens(args: Seq<Seq<char>>) -> Seq<Seq<char>> {
    args.take(position_of(args, separator()) as int)
}

/// Whether `args` holds a separator.
pub open spec fn has_separator(args: Seq<Seq<char>>) -> bool {
    args.contains(separator())
}

/// The tokens after the first separator, as they stand and in order: none
/// where there is no separator.
pub open spec fn forwarded_tokens(args: Seq<Seq<char>>) -> Seq<Seq<char>> {
    let k = position_of(args, separator()) as int;
    if k < args.len() {
        args.skip(k + 1)
    } else {
        Seq::empty()
    }
}

/// Parts the arguments at the first `--`. The second part of the result holds
/// the tokens before it. The first holds the tokens after it, none where
/// nothing follows it, and is `None` exactly where there is no `--`.
pub fn scan_for_passthrough(args: Vec<String>) -> (parts: (Option<Vec<String>>, Vec<String>))
    ensures
        texts(parts.1@) == primary_tokens(texts(args@)),
        parts.0 is None <==> !has_separator(texts(args@)),
        parts.0 matches Some(tokens) ==> texts(tokens@) == forwarded_tokens(texts(args@)),
{
    let mut prog_args: Vec<String> = Vec::new();
    let mut pass_args: Vec<String> = Vec::new();
    let ghost all = texts(args@);
    assert(texts(pass_args@) =~= Seq::<Seq<char>>::empty());
    let mut i: usize = 0;
    while i < args.len() && !same_text(args[i].as_str(), "--")
        invariant
            i <= args.len(),
            all == texts(args@),
            texts(prog_args@) == all.take(i as int),
            forall|j: int| 0 <= j < i ==> all[j] != separator(),
        decreases args.len() - i,
    {
        let token = copy_text(&args[i]);
        proof {
            lemma_texts_push(prog_args@, token);
            assert(all.take(i as int + 1) =~= all.take(i as int).push(all[i as int]));
        }
        prog_args.push(token);
        i += 1;
    }
    proof {
        lemma_position_of(all, separator(), i as int);
    }
    if i == args.len() {
        return (None, prog_args);
    }
    assert(all.contains(all[i as int]));
    let ghost k = i as int;
    i += 1;
    while i < args.len()
        invariant
            0 <= k < i <= args.len(),
            all == texts(args@),
            texts(pass_args@) == all.subrange(k + 1, i as int),
        decreases args.len() - i,
    {
        let token = copy_text(&args[i]);
        proof {
            lemma_texts_push(pass_args@, token);
            assert(all.subrange(k + 1, i as int + 1) =~= all.subrange(k + 1, i as int).push(
                all[i as int],
            ));
        }
        pass_args.push(token);
        i += 1;
    }
    assert(all.subrange(k + 1, all.len() as int) =~= all.skip(k + 1));
    (Some(pass_args), prog_args)
}

/// Why the arguments are no command.
#[derive(Debug, PartialEq, Eq)]
pub enum ParseError {
    /// `add` names no file and does not ask for all modified files.
    AddWithoutPaths,
    /// `init` was given an argument.
    InitWithArguments,
    /// `commit -m` was given no message.
    CommitWithoutMessage,
    /// `add` names files, and the environment names no home directory to
    /// hold them against.
    HomeNotSet,
    /// A file named to `add` was refused.
    Path(PathError),
}

/// A `ParseError` over sequences of characters.
pub enum ParseErrorView {
    AddWithoutPaths,
    InitWithArguments,
    CommitWithoutMessage,
    HomeNotSet,
    Path(PathErrorView),
}

impl View for ParseError {
    type V = ParseErrorView;

    open spec fn view(&self) -> ParseErrorView {
        match self {
            ParseError::AddWithoutPaths => ParseErrorView::AddWithoutPaths,
            ParseError::InitWithArguments => ParseErrorView::InitWithArguments,
            ParseError::CommitWithoutMessage => ParseErrorView::CommitWithoutMessage,
            ParseError::HomeNotSet => ParseErrorView::HomeNotSet,
            ParseError::Path(error) => ParseErrorView::Path(error@),
        }
    }
}

/// The views of a list of resolutions.
pub open spec fn resolution_views(list: Seq<Resolution>) -> Seq<ResolutionView> {
    Seq::new(list.len(), |i: int| list[i]@)
}

/// Whether `token` asks `add` for every modified file: it is `-u`, or begins
/// with `--update`.
pub open spec fn is_all_flag(token: Seq<char>) -> bool {
    token == "-u"@ || "--update"@.is_prefix_of(token)
}

/// The tokens after `add` that name files: all of them, unless the first
/// asks for every modified file.
pub open spec fn named_files(rest: Seq<Seq<char>>) -> Seq<Seq<char>> {
    if rest.len() > 0 && is_all_flag(rest[0]) {
        Seq::empty()
    } else {
        rest
    }
}

/// The tokens of `args` that have to be resolved on the file system before
/// `args` can be read: the files that an `add` before the first separator
/// names.
pub open spec fn path_targets(args: Seq<Seq<char>>) -> Seq<Seq<char>> {
    let primary = primary_tokens(args);
    if primary.len() > 0 && primary[0] == "add"@ {
        named_files(primary.skip(1))
    } else {
        Seq::empty()
    }
}

/// What resolving the file at position `i` gave. A file without an entry in
/// `resolutions` counts as one that could not be resolved, for a cause that
/// is not known.
pub open spec fn resolution_at(resolutions: Seq<ResolutionView>, i: int) -> ResolutionView {
    if 0 <= i < resolutions.len() {
        resolutions[i]
    } else {
        ResolutionView::Missing(Seq::empty())
    }
}

/// The first `n` files, checked in order: their resolved paths, or the error
/// of the first that was refused.
pub open spec fn checked_paths(
    resolutions: Seq<ResolutionView>,
    home: Seq<char>,
    user: Seq<char>,
    n: nat,
) -> Result<Seq<Seq<char>>, PathErrorView>
    decreases n,
{
    if n == 0 {
        Ok(Seq::empty())
    } else {
        match checked_paths(resolutions, home, user, (n - 1) as nat) {
            Err(error) => Err(error),
            Ok(paths) => match checked_path(resolution_at(resolutions, n - 1), home, user) {
                Err(error) => Err(error),
                Ok(path) => Ok(paths.push(path)),
            },
        }
    }
}

/// The view of a text that may be missing.
pub open spec fn text_view(text: Option<String>) -> Option<Seq<char>> {
    match text {
        Some(text) => Some(text@),
        None => None,
    }
}

/// How the tokens after `add` are read. `home` is the resolved home
/// directory, where the environment names one.
pub open spec fn add_args(
    rest: Seq<Seq<char>>,
    resolutions: Seq<ResolutionView>,
    home: Option<Seq<char>>,
    user: Seq<char>,
) -> Result<AddArgsView, ParseErrorView> {
    if rest.len() > 0 && is_all_flag(rest[0]) {
        Ok(AddArgsView { mode: AddMode::All, values: Seq::empty() })
    } else if rest.len() == 0 {
        Err(ParseErrorView::AddWithoutPaths)
    } else {
        match home {
            None => Err(ParseErrorView::HomeNotSet),
            Some(home) => match checked_paths(resolutions, home, user, rest.len()) {
                Ok(paths) => Ok(AddArgsView { mode: AddMode::Normal, values: paths }),
                Err(error) => Err(ParseErrorView::Path(error)),
            },
        }
    }
}

/// How the tokens after `commit` are read: no token leaves the message to
/// the editor; `-m` takes the next token as the message; a token that begins
/// with `--message=` holds the message after that; any other first token is
/// the message itself.
pub open spec fn commit_args(rest: Seq<Seq<char>>) -> Result<CommitArgsView, ParseErrorView> {
    if rest.len() == 0 {
        Ok(CommitArgsView { mode: CommitMode::Commit, message: None })
    } else if rest[0] == "-m"@ {
        if rest.len() >= 2 {
            Ok(CommitArgsView { mode: CommitMode::Commit, message: Some(rest[1]) })
        } else {
            Err(ParseErrorView::CommitWithoutMessage)
        }
    } else if "--message="@.is_prefix_of(rest[0]) {
        Ok(
            CommitArgsView {
                mode: CommitMode::Commit,
                message: Some(rest[0].skip("--message="@.len() as int)),
            },
        )
    } else {
        Ok(CommitArgsView { mode: CommitMode::Commit, message: Some(rest[0]) })
    }
}

/// Whether the terminal shows colours, by what `COLORTERM` holds.
pub open spec fn shows_color(colorterm: Option<Seq<char>>) -> bool {
    colorterm == Some("truecolor"@) || colorterm == Some("24bit"@)
}

/// How the tokens before the separator are read: the first is the keyword.
pub open spec fn primary_command(
    primary: Seq<Seq<char>>,
    colorterm: Option<Seq<char>>,
    home: Option<Seq<char>>,
    user: Seq<char>,
    resolutions: Seq<ResolutionView>,
) -> Result<CommandView, ParseErrorView> {
    if primary.len() == 0 {
        Ok(CommandView::Unknown)
    } else {
        let keyword = primary[0];
        let rest = primary.skip(1);
        if keyword == "add"@ {
            match add_args(rest, resolutions, home, user) {
                Ok(args) => Ok(CommandView::Add(args)),
                Err(error) => Err(error),
            }
        } else if keyword == "init"@ {
            if rest.len() == 0 {
                Ok(CommandView::Init)
            } else {
                Err(ParseErrorView::InitWithArguments)
            }
        } else if keyword == "status"@ {
            Ok(CommandView::Status(shows_color(colorterm)))
        } else if keyword == "commit"@ {
            match commit_args(rest) {
                Ok(args) => Ok(CommandView::Commit(args)),
                Err(error) => Err(error),
            }
        } else if keyword == "log"@ {
            Ok(CommandView::Log)
        } else if keyword == "--help"@ {
            Ok(CommandView::Help)
        } else {
            Ok(CommandView::Unknown)
        }
    }
}

/// A command together with what is handed on to git. Without a separator it
/// is the command alone. With one it is a `Passthrough` of the tokens after
/// it, be they none, which holds the command unless that is `Unknown`.
pub open spec fn with_forwarding(
    command: CommandView,
    separated: bool,
    tokens: Seq<Seq<char>>,
) -> CommandView {
    if !separated {
        command
    } else if command is Unknown {
        CommandView::Passthrough(None, tokens)
    } else {
        CommandView::Passthrough(Some(Box::new(command)), tokens)
    }
}

/// How the arguments after the program's name are read.
pub open spec fn parsed(
    args: Seq<Seq<char>>,
    colorterm: Option<Seq<char>>,
    home: Option<Seq<char>>,
    user: Seq<char>,
    resolutions: Seq<ResolutionView>,
) -> Result<CommandView, ParseErrorView> {
    match primary_command(primary_tokens(args), colorterm, home, user, resolutions) {
        Err(error) => Err(error),
        Ok(command) => Ok(
            with_forwarding(command, has_separator(args), forwarded_tokens(args)),
        ),
    }
}

/// Whether a command is one that reading the arguments can give: only a
/// `Passthrough` holds another command, that one is neither a `Passthrough`
/// nor `Unknown`, and an `add` names files exactly where it does not ask for
/// all modified files.
pub open spec fn well_formed(command: CommandView) -> bool {
    match command {
        CommandView::Add(args) => args.mode is All <==> args.values.len() == 0,
        CommandView::Passthrough(first, _) => match first {
            None => true,
            Some(inner) => match *inner {
                CommandView::Add(args) => args.mode is All <==> args.values.len() == 0,
                CommandView::Passthrough(_, _) => false,
                CommandView::Unknown => false,
                _ => true,
            },
        },
        _ => true,
    }
}

/// Whether `token` asks `add` for every modified file.
pub fn asks_for_all(token: &str) -> (yes: bool)
    ensures
        yes == is_all_flag(token@),
{
    if same_text(token, "-u") {
        return true;
    }
    let chars = chars_of(token);
    starts_with(&chars, "--update")
}

impl AddArgs {
    /// Reads the tokens after `add`. `resolutions` holds, for each token in
    /// order, what resolving it on the file system gave, `home` is the
    /// resolved home directory, where the environment names one, and `user`
    /// is the invoking user.
    ///
    /// A first token that is `-u` or begins with `--update` asks for every
    /// modified file, and no file is named. Otherwise every token names a
    /// file: without any the result is `AddWithoutPaths`, without a home
    /// directory it is `HomeNotSet`, and the first file in order that is
    /// refused gives its error.
    pub fn new(
        args: Vec<String>,
        resolutions: &Vec<Resolution>,
        home: &Option<String>,
        user: &str,
    ) -> (read: Result<AddArgs, ParseError>)
        ensures
            match add_args(
                texts(args@),
                resolution_views(resolutions@),
                text_view(*home),
                user@,
            ) {
                Ok(view) => read matches Ok(value) && value@ == view,
                Err(error) => read matches Err(found) && found@ == error,
            },
    {
        if args.len() > 0 && asks_for_all(args[0].as_str()) {
            let read = AddArgs { mode: AddMode::All, values: Vec::new() };
            assert(read@.values =~= Seq::<Seq<char>>::empty());
            return Ok(read);
        }
        if args.len() == 0 {
            return Err(ParseError::AddWithoutPaths);
        }
        let above = match home {
            Some(above) => above.as_str(),
            None => {
                return Err(ParseError::HomeNotSet);
            },
        };
        let ghost views = resolution_views(resolutions@);
        let mut values: Vec<String> = Vec::new();
        let mut i: usize = 0;
        assert(texts(values@) =~= Seq::<Seq<char>>::empty());
        while i < args.len()
            invariant
                i <= args.len(),
                args.len() > 0,
                !is_all_flag(texts(args@)[0]),
                views == resolution_views(resolutions@),
                text_view(*home) == Some(above@),
                checked_paths(views, above@, user@, i as nat) == Ok::<
                    Seq<Seq<char>>,
                    PathErrorView,
                >(texts(values@)),
            decreases args.len() - i,
        {
            let checked = if i < resolutions.len() {
                canonicalize_file_path(&resolutions[i], above, user)
            } else {
                canonicalize_file_path(&Resolution::Missing(String::new()), above, user)
            };
            assert(i < resolutions.len() ==> views[i as int] == resolutions@[i as int]@);
            match checked {
                Err(error) => {
                    proof {
                        assert(checked_path(resolution_at(views, i as int), above@, user@) == Err::<
                            Seq<char>,
                            PathErrorView,
                        >(error@));
                        assert(checked_paths(views, above@, user@, i as nat + 1) == Err::<
                            Seq<Seq<char>>,
                            PathErrorView,
                        >(error@));
                        lemma_checked_paths_error(
                            views,
                            above@,
                            user@,
                            i as nat + 1,
                            args.len() as nat,
                        );
                    }
                    return Err(ParseError::Path(error));
                },
                Ok(path) => {
                    proof {
                        lemma_texts_push(values@, path);
                    }
                    values.push(path);
                },
            }
            i += 1;
        }
        Ok(AddArgs { mode: AddMode::Normal, values })
    }
}

/// Once a file is refused, the files after it change nothing.
pub proof fn lemma_checked_paths_error(
    resolutions: Seq<ResolutionView>,
    home: Seq<char>,
    user: Seq<char>,
    n: nat,
    m: nat,
)
    requires
        n <= m,
        checked_paths(resolutions, home, user, n) is Err,
    ensures
        checked_paths(resolutions, home, user, m) == checked_paths(resolutions, home, user, n),
    decreases m,
{
    if n < m {
        lemma_checked_paths_error(resolutions, home, user, n, (m - 1) as nat);
    }
}

impl CommitArgs {
    /// Reads the tokens after `commit`.
    ///
    /// Without a token the message is left to the editor. After `-m` the next
    /// token is the message, and its absence gives `CommitWithoutMessage`. A
    /// first token that begins with `--message=` holds the message after
    /// that. Any other first token is the message itself.
    pub fn new(args: Vec<String>) -> (read: Result<CommitArgs, ParseError>)
        ensures
            match commit_args(texts(args@)) {
                Ok(view) => read matches Ok(value) && value@ == view,
                Err(error) => read matches Err(found) && found@ == error,
            },
    {
        if args.len() == 0 {
            return Ok(CommitArgs { mode: CommitMode::Commit, message: None });
        }
        let first = args[0].as_str();
        if same_text(first, "-m") {
            if args.len() >= 2 {
                return Ok(
                    CommitArgs { mode: CommitMode::Commit, message: Some(copy_text(&args[1])) },
                );
            }
            return Err(ParseError::CommitWithoutMessage);
        }
        let chars = chars_of(first);
        if starts_with(&chars, "--message=") {
            proof {
                reveal_strlit("--message=");
            }
            let message = slice_of(first, 10, chars.len());
            return Ok(CommitArgs { mode: CommitMode::Commit, message: Some(message) });
        }
        Ok(CommitArgs { mode: CommitMode::Commit, message: Some(copy_text(&args[0])) })
    }
}

/// Whether the terminal shows colours, by what `COLORTERM` holds.
pub fn has_color(colorterm: &Option<String>) -> (yes: bool)
    ensures
        yes == shows_color(text_view(*colorterm)),
{
    match colorterm {
        Some(value) => same_text(value.as_str(), "truecolor") || same_text(value.as_str(), "24bit"),
        None => false,
    }
}

/// The tokens of `args` that have to be resolved on the file system before
/// `format_args` can read `args`, in order.
pub fn add_targets(args: &Vec<String>) -> (targets: Vec<String>)
    ensures
        texts(targets@) == path_targets(texts(args@)),
{
    let (_, primary) = scan_for_passthrough(copy_from(args, 0));
    assert(texts(args@).skip(0) =~= texts(args@));
    if primary.len() > 0 && same_text(primary[0].as_str(), "add") {
        if primary.len() > 1 && asks_for_all(primary[1].as_str()) {
            assert(texts(primary@).skip(1)[0] == texts(primary@)[1]);
            Vec::new()
        } else {
            assert(primary.len() > 1 ==> texts(primary@).skip(1)[0] == texts(primary@)[1]);
            copy_from(&primary, 1)
        }
    } else {
        Vec::new()
    }
}

/// Reads the tokens before the separator as a command, by their first token.
pub fn read_primary(
    primary: Vec<String>,
    colorterm: &Option<String>,
    home: &Option<String>,
    user: &str,
    resolutions: &Vec<Resolution>,
) -> (read: Result<ProgMode, ParseError>)
    ensures
        match primary_command(
            texts(primary@),
            text_view(*colorterm),
            text_view(*home),
            user@,
            resolution_views(resolutions@),
        ) {
            Ok(view) => read matches Ok(value) && value@ == view,
            Err(error) => read matches Err(found) && found@ == error,
        },
{
    if primary.len() == 0 {
        return Ok(ProgMode::Unknown);
    }
    let keyword = primary[0].as_str();
    let rest = copy_from(&primary, 1);
    if same_text(keyword, "add") {
        match AddArgs::new(rest, resolutions, home, user) {
            Ok(values) => Ok(ProgMode::Add(values)),
            Err(error) => Err(error),
        }
    } else if same_text(keyword, "init") {
        if rest.len() > 0 {
            Err(ParseError::InitWithArguments)
        } else {
            Ok(ProgMode::Init)
        }
    } else if same_text(keyword, "status") {
        Ok(ProgMode::Status(has_color(colorterm)))
    } else if same_text(keyword, "commit") {
        match CommitArgs::new(rest) {
            Ok(values) => Ok(ProgMode::Commit(values)),
            Err(error) => Err(error),
        }
    } else if same_text(keyword, "log") {
        Ok(ProgMode::Log)
    } else if same_text(keyword, "--help") {
        Ok(ProgMode::Help)
    } else {
        Ok(ProgMode::Unknown)
    }
}

/// Reads the arguments after the program's name as a command.
///
/// `colorterm` is what the environment holds for `COLORTERM`, `home` is the
/// resolved home directory, where the environment names one, `user` is the
/// invoking user, and `resolutions` holds, for each token of
/// `add_targets(args)` in order, what resolving it on the file system gave.
///
/// The tokens before the first `--` are read as a command by their first
/// token. Where there is a `--`, the result is a `Passthrough` of the tokens
/// after the first one, which holds the command unless that is `Unknown`.
pub fn format_args(
    args: Vec<String>,
    colorterm: &Option<String>,
    home: &Option<String>,
    user: &str,
    resolutions: &Vec<Resolution>,
) -> (read: Result<ProgMode, ParseError>)
    ensures
        match parsed(
            texts(args@),
            text_view(*colorterm),
            text_view(*home),
            user@,
            resolution_views(resolutions@),
        ) {
            Ok(view) => read matches Ok(value) && value@ == view,
            Err(error) => read matches Err(found) && found@ == error,
        },
{
    let (forwarded, primary) = scan_for_passthrough(args);
    match read_primary(primary, colorterm, home, user, resolutions) {
        Err(error) => Err(error),
        Ok(mode) => match forwarded {
            None => Ok(mode),
            Some(tokens) => {
                if let ProgMode::Unknown = mode {
                    Ok(ProgMode::Passthrough(None, tokens))
                } else {
                    Ok(ProgMode::Passthrough(Some(Box::new(mode)), tokens))
                }
            },
        },
    }
}

/// As many paths come out of the check as went in.
pub proof fn lemma_checked_paths_len(
    resolutions: Seq<ResolutionView>,
    home: Seq<char>,
    user: Seq<char>,
    n: nat,
)
    ensures
        checked_paths(resolutions, home, user, n) matches Ok(paths) ==> paths.len() == n,
    decreases n,
{
    if n > 0 {
        lemma_checked_paths_len(resolutions, home, user, (n - 1) as nat);
    }
}

/// Arguments that hold a `--` are parted at the first one, and only there.
/// The tokens before it are read as the command, and the tokens after it are
/// handed on as they stand and in order, later `--` tokens among them and be
/// they none: the result is a `Passthrough` whenever the command is read.
pub proof fn law_split_at_first_separator(
    args: Seq<Seq<char>>,
    colorterm: Option<Seq<char>>,
    home: Option<Seq<char>>,
    user: Seq<char>,
    resolutions: Seq<ResolutionView>,
)
    requires
        args.contains(separator()),
    ensures
        ({
            let k = position_of(args, separator()) as int;
            &&& 0 <= k < args.len()
            &&& args[k] == separator()
            &&& forall|j: int| 0 <= j < k ==> args[j] != separator()
            &&& primary_tokens(args) == args.take(k)
            &&& forwarded_tokens(args) == args.skip(k + 1)
            &&& parsed(args, colorterm, home, user, resolutions) == match primary_command(
                args.take(k),
                colorterm,
                home,
                user,
                resolutions,
            ) {
                Err(error) => Err::<CommandView, ParseErrorView>(error),
                Ok(command) => Ok(
                    CommandView::Passthrough(
                        if command is Unknown {
                            None
                        } else {
                            Some(Box::new(command))
                        },
                        args.skip(k + 1),
                    ),
                ),
            }
        }),
{
    lemma_position_of_is_first(args, separator());
    let i = choose|i: int| 0 <= i < args.len() && args[i] == separator();
    assert(args[i] == separator());
}

/// Arguments without a `--` are read as the command alone, and never as a
/// `Passthrough`.
pub proof fn law_no_separator_no_forwarding(
    args: Seq<Seq<char>>,
    colorterm: Option<Seq<char>>,
    home: Option<Seq<char>>,
    user: Seq<char>,
    resolutions: Seq<ResolutionView>,
)
    requires
        !args.contains(separator()),
    ensures
        parsed(args, colorterm, home, user, resolutions) == primary_command(
            args,
            colorterm,
            home,
            user,
            resolutions,
        ),
        parsed(args, colorterm, home, user, resolutions) matches Ok(command)
            ==> command !is Passthrough,
{
    lemma_position_of_is_first(args, separator());
    let k = position_of(args, separator()) as int;
    if k < args.len() {
        assert(args.contains(args[k]));
    }
    assert(args.take(k) =~= args);
}

/// Every command that reading the arguments gives is well formed: one
/// command at most stands inside a `Passthrough`, and never a `Passthrough`.
pub proof fn law_parsed_is_well_formed(
    args: Seq<Seq<char>>,
    colorterm: Option<Seq<char>>,
    home: Option<Seq<char>>,
    user: Seq<char>,
    resolutions: Seq<ResolutionView>,
)
    ensures
        parsed(args, colorterm, home, user, resolutions) matches Ok(command) ==> well_formed(
            command,
        ),
{
    let primary = primary_tokens(args);
    if primary.len() > 0 && home is Some {
        lemma_checked_paths_len(resolutions, home->0, user, primary.skip(1).len());
    }
}

} // verus!
