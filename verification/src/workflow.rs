//! The vocabulary of a run: what the caller is asked to do, what it reports
//! back, and what is remembered between the two.
//!
//! The library decides and the caller acts. The caller starts with
//! `State::new()` and `Event::Begin`, carries out the `Action` of each `Step`,
//! prints what the step says, and reports the outcome as the next `Event`,
//! until the action is `Action::Exit`.

use crate::args::{command_view, CommandView, ProgMode};
use crate::text::{push_text, push_texts, texts};
use vstd::string::*;
use vstd::prelude::*;

verus! {

/// Which changes a listing holds.
#[derive(Debug, Clone, Copy, PartialEq, Eq, Structural)]
pub enum StatusScope {
    /// The tracked files changed in the work tree and not staged.
    WorkTree,
    /// The files staged and not committed.
    Index,
}

/// The parents that a new history entry gets.
#[derive(Debug, Clone, Copy, PartialEq, Eq, Structural)]
pub enum Parents {
    /// No parent: the entry is the first of the history.
    Root,
    /// One parent: the entry that `HEAD` named before.
    Head,
}

/// The kinds of failure, by which a run's exit code goes.
#[derive(Debug, Clone, Copy, PartialEq, Eq, Structural)]
pub enum Failure {
    /// Arguments are missing or malformed, or the command is not known.
    Usage,
    /// The environment lacks a value that is needed.
    Environment,
    /// A path lies outside the invoking user's home directory.
    PermissionScope,
    /// The repository could not be opened, created, read or written, or
    /// something else failed inside the program.
    Backend,
    /// The user declined, or left the commit message empty.
    Aborted,
    /// Reading from or writing to the terminal or the editor failed.
    Io,
}

/// The exit code of a run that ends with `failure`.
pub open spec fn exit_code_of(failure: Failure) -> i32 {
    match failure {
        Failure::Usage => 64,
        Failure::Environment => 1,
        Failure::PermissionScope => 64,
        Failure::Backend => 74,
        Failure::Aborted => 1,
        Failure::Io => 1,
    }
}

/// The exit code of a run that ends with `failure`.
pub fn exit_code(failure: Failure) -> (code: i32)
    ensures
        code == exit_code_of(failure),
{
    match failure {
        Failure::Usage => 64,
        Failure::Environment => 1,
        Failure::PermissionScope => 64,
        Failure::Backend => 74,
        Failure::Aborted => 1,
        Failure::Io => 1,
    }
}

/// The history entry that `HEAD` names, as far as the log shows it.
#[derive(Debug, PartialEq, Eq)]
pub struct LogEntry {
    /// The entry's identifier, in hexadecimal.
    pub id: String,
    /// The author's name and address.
    pub author: String,
    /// When the entry was made, in seconds since the epoch.
    pub seconds: i64,
    /// How far the local time was ahead of universal time at that moment,
    /// in seconds, where the local time zone says so.
    pub offset: Option<i32>,
    /// The entry's message, where it is text.
    pub message: Option<String>,
}

/// A `LogEntry` over sequences of characters.
pub struct LogEntryView {
    pub id: Seq<char>,
    pub author: Seq<char>,
    pub seconds: i64,
    pub offset: Option<i32>,
    pub message: Option<Seq<char>>,
}

impl View for LogEntry {
    type V = LogEntryView;

    open spec fn view(&self) -> LogEntryView {
        LogEntryView {
            id: self.id@,
            author: self.author@,
            seconds: self.seconds,
            offset: self.offset,
            message: match self.message {
                Some(text) => Some(text@),
                None => None,
            },
        }
    }
}

/// What the caller reports after it has carried out an action.
#[derive(Debug, PartialEq, Eq)]
pub enum Event {
    /// Nothing was asked yet: the run begins.
    Begin,
    /// The action was carried out.
    Succeeded,
    /// The action failed. Holds the text of the error.
    Failed(String),
    /// The line that was typed at the prompt, with its line ending.
    Answered(String),
    /// The paths of a listing, in its order. Where the listing broke off at
    /// a path that is no text, `complete` is false and `paths` holds the
    /// paths before that one.
    Listed { paths: Vec<String>, complete: bool },
    /// Whether `HEAD` names a history entry.
    History(bool),
    /// The text that the editor left.
    Edited(String),
    /// The history entry that `HEAD` names.
    Entry(LogEntry),
    /// Git has ended: with this exit code, or without one where a signal
    /// ended it.
    Exited(Option<i32>),
}

/// An `Event` over sequences of characters.
pub enum EventView {
    Begin,
    Succeeded,
    Failed(Seq<char>),
    Answered(Seq<char>),
    Listed { paths: Seq<Seq<char>>, complete: bool },
    History(bool),
    Edited(Seq<char>),
    Entry(LogEntryView),
    Exited(Option<i32>),
}

impl View for Event {
    type V = EventView;

    open spec fn view(&self) -> EventView {
        match self {
            Event::Begin => EventView::Begin,
            Event::Succeeded => EventView::Succeeded,
            Event::Failed(error) => EventView::Failed(error@),
            Event::Answered(line) => EventView::Answered(line@),
            Event::Listed { paths, complete } => EventView::Listed {
                paths: texts(paths@),
                complete: *complete,
            },
            Event::History(found) => EventView::History(*found),
            Event::Edited(text) => EventView::Edited(text@),
            Event::Entry(entry) => EventView::Entry(entry@),
            Event::Exited(code) => EventView::Exited(*code),
        }
    }
}

/// What the caller is asked to do next.
#[derive(Debug, PartialEq, Eq)]
pub enum Action {
    /// Open the bare repository at `path`.
    OpenStore { path: String },
    /// Read one line from the terminal, and report it as `Event::Answered`.
    Ask,
    /// Create a bare repository at `path`.
    CreateStore { path: String },
    /// Make `home` the work tree of the open repository.
    BindWorkTree { home: String },
    /// Open the repository's index.
    OpenIndex,
    /// List the changes of `scope`, untracked files left out, and report
    /// them as `Event::Listed`.
    ListChanges { scope: StatusScope },
    /// Add the file at `path`, which is relative to the work tree, to the
    /// index.
    StagePath { path: String },
    /// Write the index to disk.
    WriteIndex,
    /// Open `template` in the editor, and report what it left as
    /// `Event::Edited`.
    EditMessage { template: String },
    /// Look up `HEAD`, and report as `Event::History` whether it names a
    /// history entry.
    LookUpHead,
    /// Read the identity to sign with from the repository's configuration.
    ReadIdentity,
    /// Write the index as a tree.
    WriteTree,
    /// Look up the tree that was written.
    FindTree,
    /// Take the entry that `HEAD` names as the parent.
    ResolveParent,
    /// Create a history entry from the tree, signed with the identity, and
    /// move `HEAD` to it.
    CreateCommit { message: String, parents: Parents },
    /// Read the reference `HEAD`.
    ReadHead,
    /// Read the history entry that `HEAD` names, and report it as
    /// `Event::Entry`.
    ReadEntry,
    /// Print the usage text.
    PrintUsage,
    /// Run git with `arguments`, wait for it, and report how it ended as
    /// `Event::Exited`.
    Forward { arguments: Vec<String> },
    /// End the run with `code`.
    Exit { code: i32 },
}

/// An `Action` over sequences of characters.
pub enum ActionView {
    OpenStore { path: Seq<char> },
    Ask,
    CreateStore { path: Seq<char> },
    BindWorkTree { home: Seq<char> },
    OpenIndex,
    ListChanges { scope: StatusScope },
    StagePath { path: Seq<char> },
    WriteIndex,
    EditMessage { template: Seq<char> },
    LookUpHead,
    ReadIdentity,
    WriteTree,
    FindTree,
    ResolveParent,
    CreateCommit { message: Seq<char>, parents: Parents },
    ReadHead,
    ReadEntry,
    PrintUsage,
    Forward { arguments: Seq<Seq<char>> },
    Exit { code: i32 },
}

impl View for Action {
    type V = ActionView;

    open spec fn view(&self) -> ActionView {
        match self {
            Action::OpenStore { path } => ActionView::OpenStore { path: path@ },
            Action::Ask => ActionView::Ask,
            Action::CreateStore { path } => ActionView::CreateStore { path: path@ },
            Action::BindWorkTree { home } => ActionView::BindWorkTree { home: home@ },
            Action::OpenIndex => ActionView::OpenIndex,
            Action::ListChanges { scope } => ActionView::ListChanges { scope: *scope },
            Action::StagePath { path } => ActionView::StagePath { path: path@ },
            Action::WriteIndex => ActionView::WriteIndex,
            Action::EditMessage { template } => ActionView::EditMessage { template: template@ },
            Action::LookUpHead => ActionView::LookUpHead,
            Action::ReadIdentity => ActionView::ReadIdentity,
            Action::WriteTree => ActionView::WriteTree,
            Action::FindTree => ActionView::FindTree,
            Action::ResolveParent => ActionView::ResolveParent,
            Action::CreateCommit { message, parents } => ActionView::CreateCommit {
                message: message@,
                parents: *parents,
            },
            Action::ReadHead => ActionView::ReadHead,
            Action::ReadEntry => ActionView::ReadEntry,
            Action::PrintUsage => ActionView::PrintUsage,
            Action::Forward { arguments } => ActionView::Forward { arguments: texts(arguments@) },
            Action::Exit { code } => ActionView::Exit { code: *code },
        }
    }
}

/// How far a run has come: the action that was asked last.
#[derive(Debug, Clone, Copy, PartialEq, Eq, Structural)]
pub enum Phase {
    /// Nothing was asked yet.
    Idle,
    /// `OpenStore` was asked.
    Opening,
    /// `Ask` was asked, after the question whether to create the repository.
    Confirming,
    /// `CreateStore` was asked, to open the repository that was missing.
    Creating,
    /// `BindWorkTree` was asked.
    Binding,
    /// `OpenIndex` was asked, to stage files.
    OpeningIndex,
    /// `ListChanges` was asked, to stage every modified file.
    ListingModified,
    /// `StagePath` was asked.
    Staging,
    /// `WriteIndex` was asked.
    WritingIndex,
    /// `ListChanges` was asked for the work tree, to report the status.
    ListingUnstaged,
    /// `ListChanges` was asked for the index, to report the status.
    ListingStaged,
    /// `EditMessage` was asked.
    Editing,
    /// `LookUpHead` was asked.
    CheckingHistory,
    /// `ReadIdentity` was asked.
    ReadingIdentity,
    /// `OpenIndex` was asked, to commit.
    OpeningCommitIndex,
    /// `WriteTree` was asked.
    WritingTree,
    /// `FindTree` was asked.
    FindingTree,
    /// `ResolveParent` was asked.
    ResolvingParent,
    /// `CreateCommit` was asked.
    Committing,
    /// `ReadHead` was asked.
    ReadingHead,
    /// `ReadEntry` was asked.
    ReadingEntry,
    /// `CreateStore` was asked, by `init`.
    Initializing,
    /// `PrintUsage` was asked.
    ShowingUsage,
    /// `Forward` was asked.
    Forwarding,
    /// `Exit` was asked: the run is over.
    Done,
}

/// What a run remembers between two steps.
#[derive(Debug, PartialEq, Eq)]
pub struct State {
    pub phase: Phase,
    /// The paths to stage, in order.
    pub queue: Vec<String>,
    /// How many paths of `queue` are staged.
    pub staged: usize,
    /// Whether `queue` holds every path that was to be staged: false where
    /// the listing that gave it broke off at a path that is no text.
    pub complete: bool,
    /// The message to commit with.
    pub message: String,
    /// Whether `HEAD` names a history entry.
    pub history: bool,
    /// Whether nothing is changed in the work tree that is not staged.
    pub clean: bool,
}

/// A `State` over sequences of characters.
pub struct StateView {
    pub phase: Phase,
    pub queue: Seq<Seq<char>>,
    pub staged: nat,
    pub complete: bool,
    pub message: Seq<char>,
    pub history: bool,
    pub clean: bool,
}

impl View for State {
    type V = StateView;

    open spec fn view(&self) -> StateView {
        StateView {
            phase: self.phase,
            queue: texts(self.queue@),
            staged: self.staged as nat,
            complete: self.complete,
            message: self.message@,
            history: self.history,
            clean: self.clean,
        }
    }
}

/// The state in which a run begins.
pub open spec fn initial_state() -> StateView {
    StateView {
        phase: Phase::Idle,
        queue: Seq::empty(),
        staged: 0,
        complete: true,
        message: Seq::empty(),
        history: false,
        clean: false,
    }
}

impl State {
    /// The state in which a run begins.
    pub fn new() -> (state: State)
        ensures
            state@ == initial_state(),
    {
        let state = State {
            phase: Phase::Idle,
            queue: Vec::new(),
            staged: 0,
            complete: true,
            message: String::new(),
            history: false,
            clean: false,
        };
        assert(state@.queue =~= Seq::<Seq<char>>::empty());
        state
    }
}

/// What one step decides: what to remember, what to print, what to do next.
#[derive(Debug, PartialEq, Eq)]
pub struct Step {
    pub state: State,
    /// The text to print on the standard output before acting.
    pub out: String,
    /// The text to print on the standard error before acting.
    pub err: String,
    pub action: Action,
}

/// A `Step` over sequences of characters.
pub struct StepView {
    pub state: StateView,
    pub out: Seq<char>,
    pub err: Seq<char>,
    pub action: ActionView,
}

impl View for Step {
    type V = StepView;

    open spec fn view(&self) -> StepView {
        StepView { state: self.state@, out: self.out@, err: self.err@, action: self.action@ }
    }
}

/// What a run is given: the command, and what the environment holds.
#[derive(Debug, PartialEq, Eq)]
pub struct Context {
    pub command: ProgMode,
    /// Where the bare repository lies.
    pub store: String,
    /// The user's home directory, where the environment names it.
    pub home: Option<String>,
}

/// A `Context` over sequences of characters.
pub struct ContextView {
    pub command: CommandView,
    pub store: Seq<char>,
    pub home: Option<Seq<char>>,
}

impl View for Context {
    type V = ContextView;

    open spec fn view(&self) -> ContextView {
        ContextView {
            command: command_view(self.command),
            store: self.store@,
            home: match self.home {
                Some(home) => Some(home@),
                None => None,
            },
        }
    }
}

/// `state`, with the run over.
pub open spec fn ended(state: StateView) -> StateView {
    StateView { phase: Phase::Done, ..state }
}

/// The step that ends the run with `code`, after printing `out` and `err`.
pub open spec fn halt(state: StateView, out: Seq<char>, err: Seq<char>, code: i32) -> StepView {
    StepView { state: ended(state), out, err, action: ActionView::Exit { code } }
}

/// The step that ends the run with the exit code of `failure`, after
/// printing `err` on the standard error.
pub open spec fn fail(state: StateView, failure: Failure, err: Seq<char>) -> StepView {
    halt(state, Seq::empty(), err, exit_code_of(failure))
}

/// The step that asks for `action` and goes on in `phase`, after printing
/// `out`.
pub open spec fn go(state: StateView, phase: Phase, out: Seq<char>, action: ActionView) -> StepView {
    StepView { state: StateView { phase, ..state }, out, err: Seq::empty(), action }
}

/// The step for an event that cannot follow the action that was asked: the
/// run ends as a failure of the backend, and prints nothing.
pub open spec fn unexpected(state: StateView) -> StepView {
    fail(state, Failure::Backend, Seq::empty())
}

/// The command that runs first: the one inside a `Passthrough`, or
/// `Unknown` where it holds none, and any other command itself.
pub open spec fn primary(command: CommandView) -> CommandView {
    match command {
        CommandView::Passthrough(Some(inner), _) => *inner,
        CommandView::Passthrough(None, _) => CommandView::Unknown,
        _ => command,
    }
}

/// The tokens to hand on to git once the first command has run: those of a
/// `Passthrough`, be they none, and `None` for any other command.
pub open spec fn forwarding(command: CommandView) -> Option<Seq<Seq<char>>> {
    match command {
        CommandView::Passthrough(_, tokens) => Some(tokens),
        _ => None,
    }
}

/// The line that says that the environment does not name the home
/// directory.
pub open spec fn no_home_message() -> Seq<char> {
    "Could not get value of $HOME.\n"@
}

impl State {
    /// `self`, with the run over.
    pub fn end(self) -> (state: State)
        ensures
            state@ == ended(self@),
    {
        let mut state = self;
        state.phase = Phase::Done;
        state
    }
}

/// The step that ends the run with `code`, after printing `out` and `err`.
pub fn halt_with(state: State, out: String, err: String, code: i32) -> (step: Step)
    ensures
        step@ == halt(state@, out@, err@, code),
{
    Step { state: state.end(), out, err, action: Action::Exit { code } }
}

/// The step that ends the run with the exit code of `failure`, after
/// printing `err` on the standard error.
pub fn fail_with(state: State, failure: Failure, err: String) -> (step: Step)
    ensures
        step@ == fail(state@, failure, err@),
{
    halt_with(state, String::new(), err, exit_code(failure))
}

/// The step that asks for `action` and goes on in `phase`, after printing
/// `out`.
pub fn go_on(state: State, phase: Phase, out: String, action: Action) -> (step: Step)
    ensures
        step@ == go(state@, phase, out@, action@),
{
    let mut state = state;
    state.phase = phase;
    Step { state, out, err: String::new(), action }
}

/// The step for an event that cannot follow the action that was asked.
pub fn reject(state: State) -> (step: Step)
    ensures
        step@ == unexpected(state@),
{
    fail_with(state, Failure::Backend, String::new())
}

/// The command that runs first.
pub fn primary_of(command: &ProgMode) -> (first: &ProgMode)
    ensures
        first@ == primary(command@),
{
    match command {
        ProgMode::Passthrough(Some(inner), _) => &**inner,
        ProgMode::Passthrough(None, _) => &ProgMode::Unknown,
        _ => command,
    }
}

/// The arguments that git is run with to hand `tokens` on: the home
/// directory as its working directory and work tree, `store` as its
/// repository, untracked files not shown, no pager, then `tokens` as they
/// stand.
pub open spec fn git_arguments(home: Seq<char>, store: Seq<char>, tokens: Seq<Seq<char>>) -> Seq<
    Seq<char>,
> {
    seq![
        "-C"@,
        home,
        "--work-tree"@,
        "."@,
        "--git-dir"@,
        store,
        "-c"@,
        "status.showUntrackedFiles=no"@,
        "--no-pager"@,
    ] + tokens
}

/// The step that hands `tokens` on to git, after printing `out`. Without a
/// home directory the run ends as a failure of the environment.
pub open spec fn begin_forward(
    context: ContextView,
    state: StateView,
    out: Seq<char>,
    tokens: Seq<Seq<char>>,
) -> StepView {
    match context.home {
        None => halt(state, out, no_home_message(), exit_code_of(Failure::Environment)),
        Some(home) => go(
            state,
            Phase::Forwarding,
            out,
            ActionView::Forward { arguments: git_arguments(home, context.store, tokens) },
        ),
    }
}

/// The step after the command has run without failure, and printed `out`
/// last: the tokens of a `Passthrough` are handed on to git, and any other
/// run ends with exit code 0.
pub open spec fn finish(context: ContextView, state: StateView, out: Seq<char>) -> StepView {
    match forwarding(context.command) {
        Some(tokens) => begin_forward(context, state, out, tokens),
        None => halt(state, out, Seq::empty(), 0),
    }
}

/// The arguments that git is run with to hand `tokens` on.
pub fn forward_arguments(home: &str, store: &str, tokens: &Vec<String>) -> (arguments: Vec<String>)
    ensures
        texts(arguments@) == git_arguments(home@, store@, texts(tokens@)),
{
    let mut arguments: Vec<String> = Vec::new();
    assert(texts(arguments@) =~= Seq::<Seq<char>>::empty());
    push_text(&mut arguments, "-C");
    push_text(&mut arguments, home);
    push_text(&mut arguments, "--work-tree");
    push_text(&mut arguments, ".");
    push_text(&mut arguments, "--git-dir");
    push_text(&mut arguments, store);
    push_text(&mut arguments, "-c");
    push_text(&mut arguments, "status.showUntrackedFiles=no");
    push_text(&mut arguments, "--no-pager");
    assert(texts(arguments@) =~= seq![
        "-C"@,
        home@,
        "--work-tree"@,
        "."@,
        "--git-dir"@,
        store@,
        "-c"@,
        "status.showUntrackedFiles=no"@,
        "--no-pager"@,
    ]);
    push_texts(&mut arguments, tokens);
    arguments
}

/// The step that hands `tokens` on to git, after printing `out`.
pub fn forward(context: &Context, state: State, out: String, tokens: &Vec<String>) -> (step: Step)
    ensures
        step@ == begin_forward(context@, state@, out@, texts(tokens@)),
{
    match &context.home {
        None => halt_with(
            state,
            out,
            String::from_str("Could not get value of $HOME.\n"),
            exit_code(Failure::Environment),
        ),
        Some(home) => {
            let arguments = forward_arguments(home.as_str(), context.store.as_str(), tokens);
            go_on(state, Phase::Forwarding, out, Action::Forward { arguments })
        },
    }
}

/// The step after the command has run without failure, and printed `out`
/// last.
pub fn finish_with(context: &Context, state: State, out: String) -> (step: Step)
    ensures
        step@ == finish(context@, state@, out@),
{
    match &context.command {
        ProgMode::Passthrough(_, tokens) => forward(context, state, out, tokens),
        _ => halt_with(state, out, String::new(), 0),
    }
}

} // verus!
