//! The commands, step by step: what each asks of the repository, in which
//! order, and how a run ends.

use crate::args::{
    text_view, AddMode, CommandView, CommitArgs, CommitArgsView, ParseError, ParseErrorView,
    ProgMode,
};
use crate::git::{
    error_line, gen_commit_args, gen_init_comimt_args, not_text_message, open_home_repo,
    open_step, parent_step, prepare_step, run_status, status_failed_message, status_step, Session,
    SessionView,
};
use crate::path::{below_home, path_below_home, PathError, PathErrorView};
use crate::template::{
    commit_template, gen_commit_template, strip_commit_template, stripped_message,
};
use crate::text::{copy_texts, lemma_texts_push, text_of2, text_of3, texts};
use crate::workflow::{
    begin_forward, exit_code, exit_code_of, fail, fail_with, finish, finish_with, forward,
    forwarding, go, go_on, halt, halt_with, no_home_message, primary, primary_of, reject,
    unexpected, Action,
    ActionView, Context, ContextView, Event, EventView, Failure, LogEntry, LogEntryView, Phase,
    State, StateView, StatusScope, Step, StepView,
};
use vstd::prelude::*;
use vstd::string::*;

verus! {

/// The paths of `values`, each as the path below the home directory `home`.
pub open spec fn relative_paths(values: Seq<Seq<char>>, home: Seq<char>) -> Seq<Seq<char>> {
    Seq::new(values.len(), |i: int| below_home(values[i], home))
}

/// The line that says that the index could not be opened to stage files.
pub open spec fn index_failed_message(error: Seq<char>) -> Seq<char> {
    "Could not open index: "@ + error + "\n"@
}

/// The line that says that a file could not be staged.
pub open spec fn stage_failed_message(error: Seq<char>) -> Seq<char> {
    "index error: "@ + error + "\n"@
}

/// The line that says that the index could not be written.
pub open spec fn write_failed_message(error: Seq<char>) -> Seq<char> {
    "could not write to index: "@ + error + "\n"@
}

/// The step that stages the next path of the queue. Once every path is
/// staged the index is written, unless the queue is not complete: then the
/// run ends with exit code 1, and what was staged is not written.
pub open spec fn stage_next(state: StateView) -> StepView {
    if state.staged < state.queue.len() {
        go(
            state,
            Phase::Staging,
            Seq::empty(),
            ActionView::StagePath { path: state.queue[state.staged as int] },
        )
    } else if !state.complete {
        fail(state, Failure::Io, not_text_message())
    } else {
        go(state, Phase::WritingIndex, Seq::empty(), ActionView::WriteIndex)
    }
}

/// `state`, with `queue` as the paths to stage and none of them staged.
pub open spec fn queued(state: StateView, queue: Seq<Seq<char>>, complete: bool) -> StateView {
    StateView { queue, staged: 0, complete, ..state }
}

/// `state`, with one more path of the queue staged.
pub open spec fn advanced(state: StateView) -> StateView {
    if state.staged < state.queue.len() {
        StateView { staged: state.staged + 1, ..state }
    } else {
        state
    }
}

/// How files are staged.
///
/// The index is opened first. In mode `Normal` the files of the command are
/// staged, each by its path below the home directory and in the order of the
/// command; without a home directory in the environment the run fails. In
/// mode `All` the modified tracked files are listed, and the
/// paths of that listing are staged, in its order, and no others; an empty
/// listing ends the run at once. The paths are staged one at a time, and the
/// first that fails ends the run: the rest is not staged and nothing is
/// written. After the last path the index is written.
pub open spec fn add_step(context: ContextView, state: StateView, event: EventView) -> StepView {
    match state.phase {
        Phase::OpeningIndex => match event {
            EventView::Succeeded => match primary(context.command) {
                CommandView::Add(args) => if args.mode is All {
                    go(
                        state,
                        Phase::ListingModified,
                        Seq::empty(),
                        ActionView::ListChanges { scope: StatusScope::WorkTree },
                    )
                } else {
                    match context.home {
                        Some(home) => stage_next(
                            queued(state, relative_paths(args.values, home), true),
                        ),
                        None => fail(state, Failure::Environment, no_home_message()),
                    }
                },
                _ => unexpected(state),
            },
            EventView::Failed(error) => fail(state, Failure::Backend, index_failed_message(error)),
            _ => unexpected(state),
        },
        Phase::ListingModified => match event {
            EventView::Listed { paths, complete } => if paths.len() == 0 && complete {
                finish(context, state, Seq::empty())
            } else {
                stage_next(queued(state, paths, complete))
            },
            EventView::Failed(error) => fail(
                state,
                Failure::Backend,
                status_failed_message(error),
            ),
            _ => unexpected(state),
        },
        Phase::Staging => match event {
            EventView::Succeeded => stage_next(advanced(state)),
            EventView::Failed(error) => fail(state, Failure::Backend, stage_failed_message(error)),
            _ => unexpected(state),
        },
        Phase::WritingIndex => match event {
            EventView::Succeeded => finish(context, state, Seq::empty()),
            EventView::Failed(error) => fail(state, Failure::Backend, write_failed_message(error)),
            _ => unexpected(state),
        },
        _ => unexpected(state),
    }
}

/// The step that stages the next path of the queue, or writes the index
/// after the last.
pub fn stage_next_path(state: State) -> (step: Step)
    ensures
        step@ == stage_next(state@),
{
    if state.staged < state.queue.len() {
        let path = state.queue[state.staged].clone();
        go_on(state, Phase::Staging, String::new(), Action::StagePath { path })
    } else if !state.complete {
        fail_with(state, Failure::Io, String::from_str("Path is not valid utf-8\n"))
    } else {
        go_on(state, Phase::WritingIndex, String::new(), Action::WriteIndex)
    }
}

/// The paths of `values`, each as the path below the home directory `home`.
pub fn paths_below_home(values: &Vec<String>, home: &str) -> (paths: Vec<String>)
    ensures
        texts(paths@) == relative_paths(texts(values@), home@),
{
    let mut paths: Vec<String> = Vec::new();
    let mut i: usize = 0;
    let ghost wanted = relative_paths(texts(values@), home@);
    assert(texts(paths@) =~= wanted.take(0));
    while i < values.len()
        invariant
            i <= values.len(),
            wanted == relative_paths(texts(values@), home@),
            texts(paths@) == wanted.take(i as int),
        decreases values.len() - i,
    {
        let path = path_below_home(values[i].as_str(), home);
        proof {
            lemma_texts_push(paths@, path);
            assert(wanted.take(i as int + 1) =~= wanted.take(i as int).push(wanted[i as int]));
        }
        paths.push(path);
        i += 1;
    }
    assert(wanted.take(values.len() as int) =~= wanted);
    paths
}

/// One step of staging files, in the phases from `OpeningIndex` to
/// `WritingIndex`.
pub fn run_add(context: &Context, state: State, event: &Event) -> (step: Step)
    ensures
        step@ == add_step(context@, state@, event@),
{
    match state.phase {
        Phase::OpeningIndex => match event {
            Event::Succeeded => match primary_of(&context.command) {
                ProgMode::Add(args) => match args.mode {
                    AddMode::All => go_on(
                        state,
                        Phase::ListingModified,
                        String::new(),
                        Action::ListChanges { scope: StatusScope::WorkTree },
                    ),
                    AddMode::Normal => match &context.home {
                        Some(home) => {
                            let mut state = state;
                            state.queue = paths_below_home(&args.values, home.as_str());
                            state.staged = 0;
                            state.complete = true;
                            stage_next_path(state)
                        },
                        None => fail_with(
                            state,
                            Failure::Environment,
                            String::from_str("Could not get value of $HOME.\n"),
                        ),
                    },
                },
                _ => reject(state),
            },
            Event::Failed(error) => fail_with(
                state,
                Failure::Backend,
                text_of3("Could not open index: ", error.as_str(), "\n"),
            ),
            _ => reject(state),
        },
        Phase::ListingModified => match event {
            Event::Listed { paths, complete } => if paths.len() == 0 && *complete {
                finish_with(context, state, String::new())
            } else {
                let mut state = state;
                state.queue = copy_texts(paths);
                state.staged = 0;
                state.complete = *complete;
                stage_next_path(state)
            },
            Event::Failed(error) => fail_with(
                state,
                Failure::Backend,
                text_of3("Could not get repo status: ", error.as_str(), "\n"),
            ),
            _ => reject(state),
        },
        Phase::Staging => match event {
            Event::Succeeded => {
                let mut state = state;
                if state.staged < state.queue.len() {
                    state.staged = state.staged + 1;
                }
                stage_next_path(state)
            },
            Event::Failed(error) => fail_with(
                state,
                Failure::Backend,
                text_of3("index error: ", error.as_str(), "\n"),
            ),
            _ => reject(state),
        },
        Phase::WritingIndex => match event {
            Event::Succeeded => finish_with(context, state, String::new()),
            Event::Failed(error) => fail_with(
                state,
                Failure::Backend,
                text_of3("could not write to index: ", error.as_str(), "\n"),
            ),
            _ => reject(state),
        },
        _ => reject(state),
    }
}

/// The line that says that the commit was called off.
pub open spec fn aborted_message() -> Seq<char> {
    "Commit aborted\n"@
}

/// The step once the message of a commit is known. An empty message calls
/// the commit off: the run ends as aborted, and nothing is asked of the
/// repository. Any other message is remembered, and `HEAD` is looked up.
pub open spec fn with_message(state: StateView, message: Seq<char>) -> StepView {
    if message.len() == 0 {
        fail(state, Failure::Aborted, aborted_message())
    } else {
        go(
            StateView { message, ..state },
            Phase::CheckingHistory,
            Seq::empty(),
            ActionView::LookUpHead,
        )
    }
}

/// The first step of a commit, with the repository open: a message from the
/// command line is taken as it stands, and without one the editor is opened
/// on the template.
pub open spec fn begin_commit(state: StateView, args: CommitArgsView) -> StepView {
    match args.message {
        Some(message) => with_message(state, message),
        None => go(
            state,
            Phase::Editing,
            Seq::empty(),
            ActionView::EditMessage { template: commit_template() },
        ),
    }
}

/// How a commit gets its message and learns of the history.
///
/// What the editor left is stripped of its comment lines and line endings,
/// and is then the message. Whether `HEAD` names a history entry is
/// remembered for the choice of the parents, and the commit is prepared.
pub open spec fn commit_step(state: StateView, event: EventView) -> StepView {
    match state.phase {
        Phase::Editing => match event {
            EventView::Edited(text) => with_message(state, stripped_message(text)),
            EventView::Failed(error) => fail(state, Failure::Io, error_line(error)),
            _ => unexpected(state),
        },
        Phase::CheckingHistory => match event {
            EventView::History(found) => go(
                StateView { history: found, ..state },
                Phase::ReadingIdentity,
                Seq::empty(),
                ActionView::ReadIdentity,
            ),
            _ => unexpected(state),
        },
        _ => unexpected(state),
    }
}

/// The line that says that the history entry could not be created.
pub open spec fn not_committed_message() -> Seq<char> {
    "Could not create commit\n"@
}

/// How the history entry is made.
///
/// In a repository with history the entry that `HEAD` names is resolved, and
/// the new entry gets it as its one parent. Once the entry is created the
/// command has run. A failure of either is a failure of the backend.
pub open spec fn commit_made_step(context: ContextView, state: StateView, event: EventView) -> StepView {
    match state.phase {
        Phase::ResolvingParent => parent_step(state, event),
        Phase::Committing => match event {
            EventView::Succeeded => finish(context, state, Seq::empty()),
            EventView::Failed(_) => fail(state, Failure::Backend, not_committed_message()),
            _ => unexpected(state),
        },
        _ => unexpected(state),
    }
}

/// The step once the message of a commit is known.
pub fn commit_with(state: State, message: String) -> (step: Step)
    ensures
        step@ == with_message(state@, message@),
{
    if message.as_str().unicode_len() == 0 {
        fail_with(state, Failure::Aborted, String::from_str("Commit aborted\n"))
    } else {
        let mut state = state;
        state.message = message;
        go_on(state, Phase::CheckingHistory, String::new(), Action::LookUpHead)
    }
}

/// The first step of a commit, with the repository open.
pub fn start_commit(state: State, args: &CommitArgs) -> (step: Step)
    ensures
        step@ == begin_commit(state@, args@),
{
    match &args.message {
        Some(message) => commit_with(state, message.clone()),
        None => go_on(
            state,
            Phase::Editing,
            String::new(),
            Action::EditMessage { template: gen_commit_template() },
        ),
    }
}

/// One step of a commit, in the phases `Editing` and `CheckingHistory`.
pub fn run_commit(state: State, event: &Event) -> (step: Step)
    ensures
        step@ == commit_step(state@, event@),
{
    match state.phase {
        Phase::Editing => match event {
            Event::Edited(text) => commit_with(state, strip_commit_template(text.clone())),
            Event::Failed(error) => fail_with(state, Failure::Io, text_of2(error.as_str(), "\n")),
            _ => reject(state),
        },
        Phase::CheckingHistory => match event {
            Event::History(found) => {
                let mut state = state;
                state.history = *found;
                go_on(state, Phase::ReadingIdentity, String::new(), Action::ReadIdentity)
            },
            _ => reject(state),
        },
        _ => reject(state),
    }
}

/// The step after the history entry was asked for, in the phase
/// `Committing`: the first entry of a history is made like any other. In any
/// other phase the event is unexpected.
pub fn run_initial_commit(context: &Context, state: State, event: &Event) -> (step: Step)
    ensures
        state.phase is Committing ==> step@ == commit_made_step(context@, state@, event@),
        state.phase !is Committing ==> step@ == unexpected(state@),
{
    match state.phase {
        Phase::Committing => match event {
            Event::Succeeded => finish_with(context, state, String::new()),
            Event::Failed(_) => fail_with(
                state,
                Failure::Backend,
                String::from_str("Could not create commit\n"),
            ),
            _ => reject(state),
        },
        _ => reject(state),
    }
}

/// One step of making the history entry, in the phases `ResolvingParent` and
/// `Committing`.
pub fn run_commit_action(context: &Context, state: State, event: &Event) -> (step: Step)
    ensures
        step@ == commit_made_step(context@, state@, event@),
{
    match state.phase {
        Phase::ResolvingParent => gen_commit_args(state, event),
        Phase::Committing => run_initial_commit(context, state, event),
        _ => reject(state),
    }
}

/// The text that a moment shows as: the date, the time of day and the
/// distance from universal time, for `seconds` since the epoch in a zone
/// that is `offset` seconds ahead of universal time. `None` where the moment
/// or the offset is out of range.
pub uninterp spec fn timestamp_text(seconds: i64, offset: i32) -> Option<Seq<char>>;

/// Calls `chrono::FixedOffset::east_opt`, `chrono::TimeZone::timestamp_opt`
/// and the `Display` of the `chrono::DateTime` that they give. The result
/// depends on the two arguments alone, and the contract only gives it its
/// name. It is `None` where `east_opt` refuses the offset or `timestamp_opt`
/// the moment.
#[verifier::external_body]
fn show_timestamp(seconds: i64, offset: i32) -> (text: Option<String>)
    ensures
        text_view(text) == timestamp_text(seconds, offset),
{
    let zone = chrono::FixedOffset::east_opt(offset)?;
    let moment = chrono::TimeZone::timestamp_opt(&zone, seconds, 0).single()?;
    Some(moment.to_string())
}

/// The log of one history entry: its identifier, its author, `time`, and its
/// message, which is empty where the entry's message is no text.
pub open spec fn log_text(entry: LogEntryView, time: Seq<char>) -> Seq<char> {
    "commit "@ + entry.id + "\nAuthor: "@ + entry.author + "\nDate: "@ + time + "\n\n   "@ + (
    match entry.message {
        Some(message) => message,
        None => Seq::empty(),
    }) + "\n\n"@
}

/// The line that says that `HEAD` could not be read.
pub open spec fn no_head_message(error: Seq<char>) -> Seq<char> {
    "Unable to get HEAD: "@ + error + "\n"@
}

/// The line that says that `HEAD` names no history entry.
pub open spec fn no_entry_message(error: Seq<char>) -> Seq<char> {
    "Unable to get commit from HEAD: "@ + error + "\n"@
}

/// The line that says that the time of the entry cannot be shown.
pub open spec fn no_time_message() -> Seq<char> {
    "Unable to show the time of the commit\n"@
}

/// What the log shows for `entry`: its text, or nothing where its time
/// cannot be shown, be it that the local offset is not known or that the
/// moment or the offset is out of range.
pub open spec fn shown_entry(entry: LogEntryView) -> Option<Seq<char>> {
    match entry.offset {
        None => None,
        Some(offset) => match timestamp_text(entry.seconds, offset) {
            Some(time) => Some(log_text(entry, time)),
            None => None,
        },
    }
}

/// The step once the entry was read: `shown` is printed and the command has
/// run, and an entry that cannot be shown is a failure of the backend.
pub open spec fn entry_step(context: ContextView, state: StateView, shown: Option<Seq<char>>) -> StepView {
    match shown {
        Some(text) => finish(context, state, text),
        None => fail(state, Failure::Backend, no_time_message()),
    }
}

/// How the last history entry is shown.
///
/// `HEAD` is read, then the entry that it names, and the entry is printed
/// with its time as local time. A repository without history fails at the
/// first of these. Each failure is a failure of the backend, an entry whose
/// time cannot be shown too.
pub open spec fn log_step(context: ContextView, state: StateView, event: EventView) -> StepView {
    match state.phase {
        Phase::ReadingHead => match event {
            EventView::Succeeded => go(state, Phase::ReadingEntry, Seq::empty(), ActionView::ReadEntry),
            EventView::Failed(error) => fail(state, Failure::Backend, no_head_message(error)),
            _ => unexpected(state),
        },
        Phase::ReadingEntry => match event {
            EventView::Entry(entry) => entry_step(context, state, shown_entry(entry)),
            EventView::Failed(error) => fail(state, Failure::Backend, no_entry_message(error)),
            _ => unexpected(state),
        },
        _ => unexpected(state),
    }
}

/// The log of one history entry, with `time` as the text of its time.
pub fn render_log(entry: &LogEntry, time: &str) -> (text: String)
    ensures
        text@ == log_text(entry@, time@),
{
    let mut text = String::from_str("commit ");
    text.append(entry.id.as_str());
    text.append("\nAuthor: ");
    text.append(entry.author.as_str());
    text.append("\nDate: ");
    text.append(time);
    text.append("\n\n   ");
    match &entry.message {
        Some(message) => {
            text.append(message.as_str());
        },
        None => {
            assert(text@ + Seq::<char>::empty() =~= text@);
        },
    }
    text.append("\n\n");
    text
}

/// The log of one history entry, with its time as local time; `None` where
/// that time cannot be shown.
pub fn show_entry(entry: &LogEntry) -> (text: Option<String>)
    ensures
        text_view(text) == shown_entry(entry@),
{
    match entry.offset {
        None => None,
        Some(offset) => match show_timestamp(entry.seconds, offset) {
            Some(time) => Some(render_log(entry, time.as_str())),
            None => None,
        },
    }
}

/// The step once the entry was read, with what the log shows for it.
pub fn after_entry(context: &Context, state: State, shown: Option<String>) -> (step: Step)
    ensures
        step@ == entry_step(context@, state@, text_view(shown)),
{
    match shown {
        Some(text) => finish_with(context, state, text),
        None => fail_with(
            state,
            Failure::Backend,
            String::from_str("Unable to show the time of the commit\n"),
        ),
    }
}

/// One step of showing the last history entry, in the phases `ReadingHead`
/// and `ReadingEntry`.
pub fn run_log(context: &Context, state: State, event: &Event) -> (step: Step)
    ensures
        step@ == log_step(context@, state@, event@),
{
    match state.phase {
        Phase::ReadingHead => match event {
            Event::Succeeded => go_on(state, Phase::ReadingEntry, String::new(), Action::ReadEntry),
            Event::Failed(error) => fail_with(
                state,
                Failure::Backend,
                text_of3("Unable to get HEAD: ", error.as_str(), "\n"),
            ),
            _ => reject(state),
        },
        Phase::ReadingEntry => match event {
            Event::Entry(entry) => after_entry(context, state, show_entry(entry)),
            Event::Failed(error) => fail_with(
                state,
                Failure::Backend,
                text_of3("Unable to get commit from HEAD: ", error.as_str(), "\n"),
            ),
            _ => reject(state),
        },
        _ => reject(state),
    }
}

/// The line that says that the repository could not be created.
pub open spec fn init_failed_message(error: Seq<char>) -> Seq<char> {
    "Could no create git home repo: "@ + error + "\n"@
}

/// How `init` ends: once the repository is created the command has run, and
/// a failure to create it, as where one is there already, is a failure of
/// the backend.
pub open spec fn init_step(context: ContextView, state: StateView, event: EventView) -> StepView {
    match event {
        EventView::Succeeded => finish(context, state, Seq::empty()),
        EventView::Failed(error) => fail(state, Failure::Backend, init_failed_message(error)),
        _ => unexpected(state),
    }
}

/// The step after `init` asked for the repository, in the phase
/// `Initializing`.
pub fn run_init(context: &Context, state: State, event: &Event) -> (step: Step)
    ensures
        step@ == init_step(context@, state@, event@),
{
    match event {
        Event::Succeeded => finish_with(context, state, String::new()),
        Event::Failed(error) => fail_with(
            state,
            Failure::Backend,
            text_of3("Could no create git home repo: ", error.as_str(), "\n"),
        ),
        _ => reject(state),
    }
}

/// Whether the run is for a command that is not known and is no
/// `Passthrough`: such a run is a usage error.
pub open spec fn is_usage_error(command: CommandView) -> bool {
    primary(command) is Unknown && forwarding(command) is None
}

/// How a run goes on after the usage text: an unknown command ends it as a
/// usage error, and after `--help` the command has run.
pub open spec fn usage_step(context: ContextView, state: StateView, event: EventView) -> StepView {
    match event {
        EventView::Succeeded => if is_usage_error(context.command) {
            halt(state, Seq::empty(), Seq::empty(), exit_code_of(Failure::Usage))
        } else {
            finish(context, state, Seq::empty())
        },
        EventView::Failed(error) => fail(state, Failure::Io, error_line(error)),
        _ => unexpected(state),
    }
}

/// The step after the usage text was asked for, in the phase `ShowingUsage`.
pub fn after_usage(context: &Context, state: State, event: &Event) -> (step: Step)
    ensures
        step@ == usage_step(context@, state@, event@),
{
    match event {
        Event::Succeeded => match &context.command {
            ProgMode::Unknown => halt_with(
                state,
                String::new(),
                String::new(),
                exit_code(Failure::Usage),
            ),
            _ => finish_with(context, state, String::new()),
        },
        Event::Failed(error) => fail_with(state, Failure::Io, text_of2(error.as_str(), "\n")),
        _ => reject(state),
    }
}

/// The notice that a signal ended git.
pub open spec fn signal_notice() -> Seq<char> {
    "Git terminated by signal\n"@
}

/// How a run ends after git was run: with git's own exit code where it has
/// one, with 0 and a notice where a signal ended it, and as a failure of the
/// backend where it could not be started or waited for.
pub open spec fn forward_step(state: StateView, event: EventView) -> StepView {
    match event {
        EventView::Exited(Some(code)) => halt(state, Seq::empty(), Seq::empty(), code),
        EventView::Exited(None) => halt(state, signal_notice(), Seq::empty(), 0),
        EventView::Failed(error) => fail(state, Failure::Backend, error_line(error)),
        _ => unexpected(state),
    }
}

/// The step after git was run, in the phase `Forwarding`.
pub fn run_passthrough(state: State, event: &Event) -> (step: Step)
    ensures
        step@ == forward_step(state@, event@),
{
    match event {
        Event::Exited(Some(code)) => halt_with(state, String::new(), String::new(), *code),
        Event::Exited(None) => halt_with(
            state,
            String::from_str("Git terminated by signal\n"),
            String::new(),
            0,
        ),
        Event::Failed(error) => fail_with(state, Failure::Backend, text_of2(error.as_str(), "\n")),
        _ => reject(state),
    }
}

/// The step that asks for the usage text.
pub open spec fn show_usage(state: StateView) -> StepView {
    go(state, Phase::ShowingUsage, Seq::empty(), ActionView::PrintUsage)
}

/// The first step of a run, by the command that runs first.
///
/// `add`, `status`, `commit` and `log` open the repository. `init` creates
/// it. `--help` prints the usage text, and so does a command that is not
/// known, unless it stands for the empty first part of a `Passthrough`:
/// then the tokens are handed on at once. A `Passthrough` inside a
/// `Passthrough` prints the usage text and is not run.
pub open spec fn begin(context: ContextView, state: StateView) -> StepView {
    match primary(context.command) {
        CommandView::Add(_) | CommandView::Status(_) | CommandView::Commit(_) | CommandView::Log => {
            match open_step(context, state, EventView::Begin) {
                SessionView::Pending(step) => step,
                SessionView::Ready(_) => unexpected(state),
            }
        },
        CommandView::Init => go(
            state,
            Phase::Initializing,
            Seq::empty(),
            ActionView::CreateStore { path: context.store },
        ),
        CommandView::Help => show_usage(state),
        CommandView::Unknown => match forwarding(context.command) {
            Some(tokens) => begin_forward(context, state, Seq::empty(), tokens),
            None => show_usage(state),
        },
        CommandView::Passthrough(_, _) => show_usage(state),
    }
}

/// The first step of the command, once the repository is open.
pub open spec fn begin_command(context: ContextView, state: StateView) -> StepView {
    match primary(context.command) {
        CommandView::Add(_) => go(state, Phase::OpeningIndex, Seq::empty(), ActionView::OpenIndex),
        CommandView::Status(_) => go(
            state,
            Phase::ListingUnstaged,
            Seq::empty(),
            ActionView::ListChanges { scope: StatusScope::WorkTree },
        ),
        CommandView::Commit(args) => begin_commit(state, args),
        CommandView::Log => go(state, Phase::ReadingHead, Seq::empty(), ActionView::ReadHead),
        _ => unexpected(state),
    }
}

/// What a run does next: the step that follows `event` in `state`.
///
/// A run begins in the phase `Idle` with `Event::Begin`. Each phase takes
/// the events that can follow the action that it asked for, and any other
/// event ends the run as a failure of the backend. Once a run is over, every
/// event is answered with `Exit` again.
#[verifier::opaque]
pub open spec fn next_step(context: ContextView, state: StateView, event: EventView) -> StepView {
    match state.phase {
        Phase::Idle => if event is Begin {
            begin(context, state)
        } else {
            unexpected(state)
        },
        Phase::Opening | Phase::Confirming | Phase::Creating | Phase::Binding => match open_step(
            context,
            state,
            event,
        ) {
            SessionView::Ready(ready) => begin_command(context, ready),
            SessionView::Pending(step) => step,
        },
        Phase::OpeningIndex | Phase::ListingModified | Phase::Staging | Phase::WritingIndex => {
            add_step(context, state, event)
        },
        Phase::ListingUnstaged | Phase::ListingStaged => status_step(context, state, event),
        Phase::Editing | Phase::CheckingHistory => commit_step(state, event),
        Phase::ReadingIdentity | Phase::OpeningCommitIndex | Phase::WritingTree
        | Phase::FindingTree => prepare_step(state, event),
        Phase::ResolvingParent | Phase::Committing => commit_made_step(context, state, event),
        Phase::ReadingHead | Phase::ReadingEntry => log_step(context, state, event),
        Phase::Initializing => init_step(context, state, event),
        Phase::ShowingUsage => usage_step(context, state, event),
        Phase::Forwarding => forward_step(state, event),
        Phase::Done => unexpected(state),
    }
}

/// The first step of a run.
pub fn start(context: &Context, state: State) -> (step: Step)
    ensures
        step@ == begin(context@, state@),
{
    match primary_of(&context.command) {
        ProgMode::Add(_) | ProgMode::Status(_) | ProgMode::Commit(_) | ProgMode::Log => {
            match open_home_repo(context, state, &Event::Begin) {
                Session::Pending(step) => step,
                Session::Ready(ready) => reject(ready),
            }
        },
        ProgMode::Init => go_on(
            state,
            Phase::Initializing,
            String::new(),
            Action::CreateStore { path: context.store.clone() },
        ),
        ProgMode::Help => go_on(state, Phase::ShowingUsage, String::new(), Action::PrintUsage),
        ProgMode::Unknown => match &context.command {
            ProgMode::Passthrough(_, tokens) => forward(context, state, String::new(), tokens),
            _ => go_on(state, Phase::ShowingUsage, String::new(), Action::PrintUsage),
        },
        ProgMode::Passthrough(_, _) => go_on(
            state,
            Phase::ShowingUsage,
            String::new(),
            Action::PrintUsage,
        ),
    }
}

/// The first step of the command, once the repository is open.
pub fn start_command(context: &Context, state: State) -> (step: Step)
    ensures
        step@ == begin_command(context@, state@),
{
    match primary_of(&context.command) {
        ProgMode::Add(_) => go_on(state, Phase::OpeningIndex, String::new(), Action::OpenIndex),
        ProgMode::Status(_) => go_on(
            state,
            Phase::ListingUnstaged,
            String::new(),
            Action::ListChanges { scope: StatusScope::WorkTree },
        ),
        ProgMode::Commit(args) => start_commit(state, args),
        ProgMode::Log => go_on(state, Phase::ReadingHead, String::new(), Action::ReadHead),
        _ => reject(state),
    }
}

/// What a run does next.
///
/// The caller begins with `State::new()` and `Event::Begin`. It prints
/// `out` and `err` of each step, carries out its action, and calls `step`
/// again with the state of that step and the event that says how the action
/// went, until the action is `Exit`.
pub fn step(context: &Context, state: State, event: &Event) -> (step: Step)
    ensures
        step@ == next_step(context@, state@, event@),
{
    reveal(next_step);
    match state.phase {
        Phase::Idle => match event {
            Event::Begin => start(context, state),
            _ => reject(state),
        },
        Phase::Opening | Phase::Confirming | Phase::Creating | Phase::Binding => {
            match open_home_repo(context, state, event) {
                Session::Ready(ready) => start_command(context, ready),
                Session::Pending(step) => step,
            }
        },
        Phase::OpeningIndex | Phase::ListingModified | Phase::Staging | Phase::WritingIndex => {
            run_add(context, state, event)
        },
        Phase::ListingUnstaged | Phase::ListingStaged => run_status(context, state, event),
        Phase::Editing | Phase::CheckingHistory => run_commit(state, event),
        Phase::ReadingIdentity | Phase::OpeningCommitIndex | Phase::WritingTree
        | Phase::FindingTree => gen_init_comimt_args(state, event),
        Phase::ResolvingParent | Phase::Committing => run_commit_action(context, state, event),
        Phase::ReadingHead | Phase::ReadingEntry => run_log(context, state, event),
        Phase::Initializing => run_init(context, state, event),
        Phase::ShowingUsage => after_usage(context, state, event),
        Phase::Forwarding => run_passthrough(state, event),
        Phase::Done => reject(state),
    }
}

/// The usage text of one command.
#[derive(Debug, Clone, Copy, PartialEq, Eq, Structural)]
pub enum Topic {
    Add,
    Commit,
}

/// How a run ends whose arguments are no command.
#[derive(Debug, PartialEq, Eq)]
pub struct Refusal {
    /// The text to print on the standard error.
    pub err: String,
    /// The usage text to print on the standard output, if any.
    pub topic: Option<Topic>,
    /// The exit code.
    pub code: i32,
}

/// A `Refusal` over sequences of characters.
pub struct RefusalView {
    pub err: Seq<char>,
    pub topic: Option<Topic>,
    pub code: i32,
}

impl View for Refusal {
    type V = RefusalView;

    open spec fn view(&self) -> RefusalView {
        RefusalView { err: self.err@, topic: self.topic, code: self.code }
    }
}

/// The kind of failure that an error in the arguments is: a usage error
/// where arguments are missing or too many, a failure of the environment
/// where it names no home directory, a failure of scope for a path
/// outside the home directory, a failure of input and output for a path
/// that could not be resolved, and an internal failure for one that is no
/// text.
pub open spec fn failure_of(error: ParseErrorView) -> Failure {
    match error {
        ParseErrorView::AddWithoutPaths => Failure::Usage,
        ParseErrorView::InitWithArguments => Failure::Usage,
        ParseErrorView::CommitWithoutMessage => Failure::Usage,
        ParseErrorView::HomeNotSet => Failure::Environment,
        ParseErrorView::Path(PathErrorView::NotInHomeDirectory) => Failure::PermissionScope,
        ParseErrorView::Path(PathErrorView::ResolutionError(_)) => Failure::Io,
        ParseErrorView::Path(PathErrorView::EncodingError) => Failure::Backend,
    }
}

/// The line that says that a path could not be resolved, and why.
pub open spec fn unresolved_message(cause: Seq<char>) -> Seq<char> {
    "Couldn't canonicalize path: "@ + cause + "\n"@
}

/// How a run ends whose arguments are no command: with the usage text of
/// the command where arguments are missing, with a line that names the
/// fault otherwise, and with the exit code of the kind of failure.
pub open spec fn refusal_of(error: ParseErrorView) -> RefusalView {
    RefusalView {
        err: match error {
            ParseErrorView::AddWithoutPaths => Seq::empty(),
            ParseErrorView::InitWithArguments => "home init takes no args.\n"@,
            ParseErrorView::CommitWithoutMessage => Seq::empty(),
            ParseErrorView::HomeNotSet => no_home_message(),
            ParseErrorView::Path(PathErrorView::NotInHomeDirectory) => {
                "git home should only be used on files in the users own home directory\n"@
            },
            ParseErrorView::Path(PathErrorView::ResolutionError(cause)) => unresolved_message(
                cause,
            ),
            ParseErrorView::Path(PathErrorView::EncodingError) => {
                "could not convert path to string\n"@
            },
        },
        topic: match error {
            ParseErrorView::AddWithoutPaths => Some(Topic::Add),
            ParseErrorView::CommitWithoutMessage => Some(Topic::Commit),
            _ => None,
        },
        code: exit_code_of(failure_of(error)),
    }
}

/// How a run ends whose arguments are no command.
pub fn refuse(error: &ParseError) -> (refusal: Refusal)
    ensures
        refusal@ == refusal_of(error@),
{
    match error {
        ParseError::AddWithoutPaths => Refusal {
            err: String::new(),
            topic: Some(Topic::Add),
            code: exit_code(Failure::Usage),
        },
        ParseError::InitWithArguments => Refusal {
            err: String::from_str("home init takes no args.\n"),
            topic: None,
            code: exit_code(Failure::Usage),
        },
        ParseError::CommitWithoutMessage => Refusal {
            err: String::new(),
            topic: Some(Topic::Commit),
            code: exit_code(Failure::Usage),
        },
        ParseError::HomeNotSet => Refusal {
            err: String::from_str("Could not get value of $HOME.\n"),
            topic: None,
            code: exit_code(Failure::Environment),
        },
        ParseError::Path(PathError::NotInHomeDirectory) => Refusal {
            err: String::from_str(
                "git home should only be used on files in the users own home directory\n",
            ),
            topic: None,
            code: exit_code(Failure::PermissionScope),
        },
        ParseError::Path(PathError::ResolutionError(cause)) => Refusal {
            err: text_of3("Couldn't canonicalize path: ", cause.as_str(), "\n"),
            topic: None,
            code: exit_code(Failure::Io),
        },
        ParseError::Path(PathError::EncodingError) => Refusal {
            err: String::from_str("could not convert path to string\n"),
            topic: None,
            code: exit_code(Failure::Backend),
        },
    }
}

} // verus!
