//! The repository: where it lies, how it is opened or created on the way,
//! how its status is reported, and what a commit needs before it is made.

use crate::args::{CommandView, ProgMode};
use crate::status::{
    closing_notice, staged_section, staged_text, unstaged_section, unstaged_text,
};
use crate::text::{chars_of, text_of2, text_of3, text_of5, texts};
use crate::workflow::{
    exit_code, exit_code_of, fail, fail_with, finish, finish_with, go, go_on, halt, halt_with,
    no_home_message, primary, primary_of, reject, unexpected, Action, ActionView, Context,
    ContextView, Event, EventView, Failure, Parents, Phase, State, StateView, StatusScope, Step,
    StepView,
};
use vstd::prelude::*;
use vstd::string::*;

verus! {

/// Where the repository lies below the home directory, unless the
/// environment says otherwise.
pub open spec fn default_store() -> Seq<char> {
    ".config/git_home"@
}

/// Where the repository lies. `Ok` holds what the environment gives for
/// `GIT_HOME_DIR`. Without it, `Err` holds the default: `default_store()`
/// below the home directory, or as it stands where the environment names no
/// home directory or an empty one.
pub open spec fn resolved_store(git_home_dir: Option<Seq<char>>, home: Option<Seq<char>>) -> Result<
    Seq<char>,
    Seq<char>,
> {
    match git_home_dir {
        Some(dir) => Ok(dir),
        None => match home {
            Some(home) => if home.len() > 0 {
                Err(home + seq!['/'] + default_store())
            } else {
                Err(default_store())
            },
            None => Err(default_store()),
        },
    }
}

/// Where the repository lies, by what the environment holds for
/// `GIT_HOME_DIR` and for `HOME`.
pub fn resolve_git_repo(git_home_dir: Option<String>, home: Option<String>) -> (store: Result<
    String,
    String,
>)
    ensures
        match resolved_store(
            match git_home_dir {
                Some(dir) => Some(dir@),
                None => None,
            },
            match home {
                Some(home) => Some(home@),
                None => None,
            },
        ) {
            Ok(path) => store matches Ok(text) && text@ == path,
            Err(path) => store matches Err(text) && text@ == path,
        },
{
    if let Some(dir) = git_home_dir {
        return Ok(dir);
    }
    let mut home_dir = match home {
        Some(home) => home,
        None => String::new(),
    };
    if home_dir.as_str().unicode_len() != 0 {
        proof {
            reveal_strlit("/");
            assert("/"@ =~= seq!['/']);
        }
        home_dir.append("/");
    }
    home_dir.append(".config/git_home");
    assert(Seq::<char>::empty() + default_store() =~= default_store());
    Err(home_dir)
}

/// The question whether to create the repository at `store`.
pub open spec fn create_question(store: Seq<char>) -> Seq<char> {
    "Git home repo doesn't exist, create one now at "@ + store + "?\n(y/n) "@
}

/// The notice that the repository is being created at `store`.
pub open spec fn creating_notice(store: Seq<char>) -> Seq<char> {
    "Creating git home repo: "@ + store + ".\n"@
}

/// The notice after the user declined to create the repository.
pub open spec fn declined_notice() -> Seq<char> {
    "You can create a new repository at any time by running 'git home init'.\n"@
}

/// The line that says that the repository could not be created at `store`.
pub open spec fn create_failed_message(store: Seq<char>, error: Seq<char>) -> Seq<char> {
    "Could not initialize git_home directory at "@ + store + ": "@ + error + "\n"@
}

/// The line that says that the home directory could not be made the work
/// tree.
pub open spec fn bind_failed_message(error: Seq<char>) -> Seq<char> {
    "Could not set working dir to "@ + error + "\n"@
}

/// `error` as a line of its own.
pub open spec fn error_line(error: Seq<char>) -> Seq<char> {
    error + "\n"@
}

/// Whether the line typed at the prompt says yes: it is `y` and a line
/// feed, and nothing else.
pub open spec fn affirmative(line: Seq<char>) -> bool {
    line == seq!['y', '\n']
}

/// Whether the line typed at the prompt says yes.
pub fn is_affirmative(line: &str) -> (yes: bool)
    ensures
        yes == affirmative(line@),
{
    let chars = chars_of(line);
    let yes = chars.len() == 2 && chars[0] == 'y' && chars[1] == '\n';
    assert(yes ==> line@ =~= seq!['y', '\n']);
    yes
}

/// What opening the repository has come to.
#[derive(Debug, PartialEq, Eq)]
pub enum Session {
    /// The repository is open, with the home directory as its work tree.
    Ready(State),
    /// There is more to do, or the run has failed.
    Pending(Step),
}

/// A `Session` over sequences of characters.
pub enum SessionView {
    Ready(StateView),
    Pending(StepView),
}

impl View for Session {
    type V = SessionView;

    open spec fn view(&self) -> SessionView {
        match self {
            Session::Ready(state) => SessionView::Ready(state@),
            Session::Pending(step) => SessionView::Pending(step@),
        }
    }
}

/// The step that makes the home directory the work tree of the repository
/// that was just opened or created.
pub open spec fn bind(context: ContextView, state: StateView) -> StepView {
    match context.home {
        None => fail(state, Failure::Environment, no_home_message()),
        Some(home) => go(
            state,
            Phase::Binding,
            Seq::empty(),
            ActionView::BindWorkTree { home },
        ),
    }
}

/// How the repository is opened.
///
/// Without a home directory in the environment the run fails at once.
/// Otherwise the repository at `context.store` is opened. Where that fails,
/// the user is asked whether to create it: after a yes it is created, after
/// any other answer the run ends as aborted. Once the repository is open or
/// created, the home directory is made its work tree, and the session is
/// ready. A failure to create it or to set the work tree is a failure of the
/// backend.
pub open spec fn open_step(context: ContextView, state: StateView, event: EventView) -> SessionView {
    match state.phase {
        Phase::Idle => match context.home {
            None => SessionView::Pending(fail(state, Failure::Environment, no_home_message())),
            Some(_) => SessionView::Pending(
                go(
                    state,
                    Phase::Opening,
                    Seq::empty(),
                    ActionView::OpenStore { path: context.store },
                ),
            ),
        },
        Phase::Opening => match event {
            EventView::Succeeded => SessionView::Pending(bind(context, state)),
            EventView::Failed(_) => SessionView::Pending(
                go(state, Phase::Confirming, create_question(context.store), ActionView::Ask),
            ),
            _ => SessionView::Pending(unexpected(state)),
        },
        Phase::Confirming => match event {
            EventView::Answered(line) => if affirmative(line) {
                SessionView::Pending(
                    go(
                        state,
                        Phase::Creating,
                        creating_notice(context.store),
                        ActionView::CreateStore { path: context.store },
                    ),
                )
            } else {
                SessionView::Pending(
                    halt(
                        state,
                        declined_notice(),
                        Seq::empty(),
                        exit_code_of(Failure::Aborted),
                    ),
                )
            },
            EventView::Failed(error) => SessionView::Pending(
                fail(state, Failure::Io, error_line(error)),
            ),
            _ => SessionView::Pending(unexpected(state)),
        },
        Phase::Creating => match event {
            EventView::Succeeded => SessionView::Pending(bind(context, state)),
            EventView::Failed(error) => SessionView::Pending(
                fail(state, Failure::Backend, create_failed_message(context.store, error)),
            ),
            _ => SessionView::Pending(unexpected(state)),
        },
        Phase::Binding => match event {
            EventView::Succeeded => SessionView::Ready(state),
            EventView::Failed(error) => SessionView::Pending(
                fail(state, Failure::Backend, bind_failed_message(error)),
            ),
            _ => SessionView::Pending(unexpected(state)),
        },
        _ => SessionView::Pending(unexpected(state)),
    }
}

/// The step that makes the home directory the work tree.
pub fn bind_work_tree(context: &Context, state: State) -> (step: Step)
    ensures
        step@ == bind(context@, state@),
{
    match &context.home {
        None => fail_with(
            state,
            Failure::Environment,
            String::from_str("Could not get value of $HOME.\n"),
        ),
        Some(home) => go_on(
            state,
            Phase::Binding,
            String::new(),
            Action::BindWorkTree { home: home.clone() },
        ),
    }
}

/// One step of opening the repository, in the phases from `Idle` to
/// `Binding`.
pub fn open_home_repo(context: &Context, state: State, event: &Event) -> (session: Session)
    ensures
        session@ == open_step(context@, state@, event@),
{
    let store = context.store.as_str();
    match state.phase {
        Phase::Idle => match &context.home {
            None => Session::Pending(
                fail_with(
                    state,
                    Failure::Environment,
                    String::from_str("Could not get value of $HOME.\n"),
                ),
            ),
            Some(_) => Session::Pending(
                go_on(
                    state,
                    Phase::Opening,
                    String::new(),
                    Action::OpenStore { path: context.store.clone() },
                ),
            ),
        },
        Phase::Opening => match event {
            Event::Succeeded => Session::Pending(bind_work_tree(context, state)),
            Event::Failed(_) => Session::Pending(
                go_on(
                    state,
                    Phase::Confirming,
                    text_of3("Git home repo doesn't exist, create one now at ", store, "?\n(y/n) "),
                    Action::Ask,
                ),
            ),
            _ => Session::Pending(reject(state)),
        },
        Phase::Confirming => match event {
            Event::Answered(line) => if is_affirmative(line.as_str()) {
                Session::Pending(
                    go_on(
                        state,
                        Phase::Creating,
                        text_of3("Creating git home repo: ", store, ".\n"),
                        Action::CreateStore { path: context.store.clone() },
                    ),
                )
            } else {
                Session::Pending(
                    halt_with(
                        state,
                        String::from_str(
                            "You can create a new repository at any time by running 'git home init'.\n",
                        ),
                        String::new(),
                        exit_code(Failure::Aborted),
                    ),
                )
            },
            Event::Failed(error) => Session::Pending(
                fail_with(state, Failure::Io, text_of2(error.as_str(), "\n")),
            ),
            _ => Session::Pending(reject(state)),
        },
        Phase::Creating => match event {
            Event::Succeeded => Session::Pending(bind_work_tree(context, state)),
            Event::Failed(error) => Session::Pending(
                fail_with(
                    state,
                    Failure::Backend,
                    text_of5(
                        "Could not initialize git_home directory at ",
                        store,
                        ": ",
                        error.as_str(),
                        "\n",
                    ),
                ),
            ),
            _ => Session::Pending(reject(state)),
        },
        Phase::Binding => match event {
            Event::Succeeded => Session::Ready(state),
            Event::Failed(error) => Session::Pending(
                fail_with(
                    state,
                    Failure::Backend,
                    text_of3("Could not set working dir to ", error.as_str(), "\n"),
                ),
            ),
            _ => Session::Pending(reject(state)),
        },
        _ => Session::Pending(reject(state)),
    }
}

/// The line that says that the changes could not be listed.
pub open spec fn status_failed_message(error: Seq<char>) -> Seq<char> {
    "Could not get repo status: "@ + error + "\n"@
}

/// The line that says that a path is no text.
pub open spec fn not_text_message() -> Seq<char> {
    "Path is not valid utf-8\n"@
}

/// Whether the command that runs first is `status` for a terminal with
/// colours.
pub open spec fn wants_color(command: CommandView) -> bool {
    primary(command) matches CommandView::Status(has_color) && has_color
}

/// How the status is reported.
///
/// The changes in the work tree are listed first and printed as their
/// section, then the staged changes are listed and printed as theirs. The
/// two sections are apart: each holds the paths of its own listing and of no
/// other. After them the report says that everything is up to date exactly
/// where both listings are empty. A listing that fails is a failure of the
/// backend. One that breaks off at a path that is no text is printed as far
/// as it came, and ends the run with exit code 1.
pub open spec fn status_step(context: ContextView, state: StateView, event: EventView) -> StepView {
    let has_color = wants_color(context.command);
    match state.phase {
        Phase::ListingUnstaged => match event {
            EventView::Listed { paths, complete } => if complete {
                StepView {
                    state: StateView {
                        phase: Phase::ListingStaged,
                        clean: paths.len() == 0,
                        ..state
                    },
                    out: unstaged_section(has_color, paths, true),
                    err: Seq::empty(),
                    action: ActionView::ListChanges { scope: StatusScope::Index },
                }
            } else {
                halt(
                    state,
                    unstaged_section(has_color, paths, false),
                    not_text_message(),
                    exit_code_of(Failure::Io),
                )
            },
            EventView::Failed(error) => fail(
                state,
                Failure::Backend,
                status_failed_message(error),
            ),
            _ => unexpected(state),
        },
        Phase::ListingStaged => match event {
            EventView::Listed { paths, complete } => if complete {
                finish(
                    context,
                    state,
                    staged_section(has_color, paths, true) + closing_notice(
                        state.clean,
                        paths.len() == 0,
                    ),
                )
            } else {
                halt(
                    state,
                    staged_section(has_color, paths, false),
                    not_text_message(),
                    exit_code_of(Failure::Io),
                )
            },
            EventView::Failed(error) => fail(
                state,
                Failure::Backend,
                status_failed_message(error),
            ),
            _ => unexpected(state),
        },
        _ => unexpected(state),
    }
}

/// Whether the command that runs first is `status` for a terminal with
/// colours.
pub fn status_color(command: &ProgMode) -> (yes: bool)
    ensures
        yes == wants_color(command@),
{
    match primary_of(command) {
        ProgMode::Status(has_color) => *has_color,
        _ => false,
    }
}

/// One step of the status report, in the phases `ListingUnstaged` and
/// `ListingStaged`.
pub fn run_status(context: &Context, state: State, event: &Event) -> (step: Step)
    ensures
        step@ == status_step(context@, state@, event@),
{
    let has_color = status_color(&context.command);
    match state.phase {
        Phase::ListingUnstaged => match event {
            Event::Listed { paths, complete } => {
                let out = unstaged_text(has_color, paths, *complete);
                if *complete {
                    let mut state = state;
                    state.phase = Phase::ListingStaged;
                    state.clean = paths.len() == 0;
                    Step {
                        state,
                        out,
                        err: String::new(),
                        action: Action::ListChanges { scope: StatusScope::Index },
                    }
                } else {
                    halt_with(
                        state,
                        out,
                        String::from_str("Path is not valid utf-8\n"),
                        exit_code(Failure::Io),
                    )
                }
            },
            Event::Failed(error) => fail_with(
                state,
                Failure::Backend,
                text_of3("Could not get repo status: ", error.as_str(), "\n"),
            ),
            _ => reject(state),
        },
        Phase::ListingStaged => match event {
            Event::Listed { paths, complete } => {
                let mut out = staged_text(has_color, paths, *complete);
                if *complete {
                    if state.clean && paths.len() == 0 {
                        out.append("Everything is upto date.\n");
                    }
                    assert(out@ =~= staged_section(has_color, texts(paths@), true)
                        + closing_notice(state.clean, paths@.len() == 0));
                    finish_with(context, state, out)
                } else {
                    halt_with(
                        state,
                        out,
                        String::from_str("Path is not valid utf-8\n"),
                        exit_code(Failure::Io),
                    )
                }
            },
            Event::Failed(error) => fail_with(
                state,
                Failure::Backend,
                text_of3("Could not get repo status: ", error.as_str(), "\n"),
            ),
            _ => reject(state),
        },
        _ => reject(state),
    }
}

/// The lines that say that no identity is configured to sign with.
pub open spec fn no_identity_message() -> Seq<char> {
    "Unable to create a commit signiture.\nPerhaps 'user.name' and 'user.email' are not set\n"@
}

/// The line that says that the index could not be opened to commit.
pub open spec fn no_index_message() -> Seq<char> {
    "Could not open repository index.\n"@
}

/// The line that says that the index could not be written as a tree.
pub open spec fn tree_not_written_message() -> Seq<char> {
    "Unable to write initial tree form index.\n"@
}

/// The line that says that the tree could not be looked up.
pub open spec fn tree_not_found_message() -> Seq<char> {
    "Could not look up initial tree\n"@
}

/// How a commit is prepared.
///
/// The identity is read, the index is opened and written as a tree, and the
/// tree is looked up, in this order. Any of them that fails is a failure of
/// the backend, a missing identity too. With the tree at hand, a repository
/// without history gets its first entry, which has no parent, and one with
/// history has the parent resolved first.
pub open spec fn prepare_step(state: StateView, event: EventView) -> StepView {
    match state.phase {
        Phase::ReadingIdentity => match event {
            EventView::Succeeded => go(
                state,
                Phase::OpeningCommitIndex,
                Seq::empty(),
                ActionView::OpenIndex,
            ),
            EventView::Failed(_) => fail(state, Failure::Backend, no_identity_message()),
            _ => unexpected(state),
        },
        Phase::OpeningCommitIndex => match event {
            EventView::Succeeded => go(
                state,
                Phase::WritingTree,
                Seq::empty(),
                ActionView::WriteTree,
            ),
            EventView::Failed(_) => fail(state, Failure::Backend, no_index_message()),
            _ => unexpected(state),
        },
        Phase::WritingTree => match event {
            EventView::Succeeded => go(state, Phase::FindingTree, Seq::empty(), ActionView::FindTree),
            EventView::Failed(_) => fail(state, Failure::Backend, tree_not_written_message()),
            _ => unexpected(state),
        },
        Phase::FindingTree => match event {
            EventView::Succeeded => if state.history {
                go(state, Phase::ResolvingParent, Seq::empty(), ActionView::ResolveParent)
            } else {
                go(
                    state,
                    Phase::Committing,
                    Seq::empty(),
                    ActionView::CreateCommit { message: state.message, parents: Parents::Root },
                )
            },
            EventView::Failed(_) => fail(state, Failure::Backend, tree_not_found_message()),
            _ => unexpected(state),
        },
        _ => unexpected(state),
    }
}

/// One step of preparing a commit, in the phases from `ReadingIdentity` to
/// `FindingTree`.
pub fn gen_init_comimt_args(state: State, event: &Event) -> (step: Step)
    ensures
        step@ == prepare_step(state@, event@),
{
    match state.phase {
        Phase::ReadingIdentity => match event {
            Event::Succeeded => go_on(
                state,
                Phase::OpeningCommitIndex,
                String::new(),
                Action::OpenIndex,
            ),
            Event::Failed(_) => fail_with(
                state,
                Failure::Backend,
                String::from_str(
                    "Unable to create a commit signiture.\nPerhaps 'user.name' and 'user.email' are not set\n",
                ),
            ),
            _ => reject(state),
        },
        Phase::OpeningCommitIndex => match event {
            Event::Succeeded => go_on(state, Phase::WritingTree, String::new(), Action::WriteTree),
            Event::Failed(_) => fail_with(
                state,
                Failure::Backend,
                String::from_str("Could not open repository index.\n"),
            ),
            _ => reject(state),
        },
        Phase::WritingTree => match event {
            Event::Succeeded => go_on(state, Phase::FindingTree, String::new(), Action::FindTree),
            Event::Failed(_) => fail_with(
                state,
                Failure::Backend,
                String::from_str("Unable to write initial tree form index.\n"),
            ),
            _ => reject(state),
        },
        Phase::FindingTree => match event {
            Event::Succeeded => if state.history {
                go_on(state, Phase::ResolvingParent, String::new(), Action::ResolveParent)
            } else {
                let message = state.message.clone();
                go_on(
                    state,
                    Phase::Committing,
                    String::new(),
                    Action::CreateCommit { message, parents: Parents::Root },
                )
            },
            Event::Failed(_) => fail_with(
                state,
                Failure::Backend,
                String::from_str("Could not look up initial tree\n"),
            ),
            _ => reject(state),
        },
        _ => reject(state),
    }
}

/// The line that says that the parent is no history entry.
pub open spec fn no_parent_message() -> Seq<char> {
    "could not get parent commit\n"@
}

/// How the parent of a commit is taken: once the entry that `HEAD` names is
/// resolved, the new entry is asked for with it as its one parent. A `HEAD`
/// that names no history entry is a failure of the backend.
pub open spec fn parent_step(state: StateView, event: EventView) -> StepView {
    match event {
        EventView::Succeeded => go(
            state,
            Phase::Committing,
            Seq::empty(),
            ActionView::CreateCommit { message: state.message, parents: Parents::Head },
        ),
        EventView::Failed(_) => fail(state, Failure::Backend, no_parent_message()),
        _ => unexpected(state),
    }
}

/// One step of preparing a commit that has a parent: as for any commit in
/// the phases from `ReadingIdentity` to `FindingTree`, and the parent in the
/// phase `ResolvingParent`.
pub fn gen_commit_args(state: State, event: &Event) -> (step: Step)
    ensures
        state.phase is ResolvingParent ==> step@ == parent_step(state@, event@),
        state.phase !is ResolvingParent ==> step@ == prepare_step(state@, event@),
{
    match state.phase {
        Phase::ResolvingParent => match event {
            Event::Succeeded => {
                let message = state.message.clone();
                go_on(
                    state,
                    Phase::Committing,
                    String::new(),
                    Action::CreateCommit { message, parents: Parents::Head },
                )
            },
            Event::Failed(_) => fail_with(
                state,
                Failure::Backend,
                String::from_str("could not get parent commit\n"),
            ),
            _ => reject(state),
        },
        _ => gen_init_comimt_args(state, event),
    }
}

} // verus!
