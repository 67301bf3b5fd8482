//! What holds of every run, proved from the steps.

use crate::git::wants_color;
use crate::args::{add_args, checked_paths, resolution_at, ParseErrorView};
use crate::path::{checked_path, in_home, is_rooted, segments, PathErrorView, ResolutionView};
use crate::run::{aborted_message, failure_of, next_step, refusal_of};
use crate::status::{closing_notice, status_report};
use crate::template::{commit_template, law_untouched_template_is_empty, stripped_message};
use crate::workflow::{
    fail, forwarding, git_arguments, go, initial_state, ActionView, ContextView, EventView,
    Failure, Parents, Phase, StateView, StatusScope, StepView,
};
use vstd::prelude::*;

verus! {

/// A resolved path that does not lie under the home directory of the user
/// is refused as such, whatever else holds of it, and a run that is refused
/// for it ends as a failure of scope, with exit code 64.
pub proof fn law_outside_home_is_refused(
    path: Seq<char>,
    exact: bool,
    home: Seq<char>,
    user: Seq<char>,
)
    requires
        !segments(home).is_prefix_of(segments(path)),
    ensures
        checked_path(ResolutionView::Found { path, exact }, home, user) == Err::<
            Seq<char>,
            PathErrorView,
        >(PathErrorView::NotInHomeDirectory),
        failure_of(ParseErrorView::Path(PathErrorView::NotInHomeDirectory))
            == Failure::PermissionScope,
        refusal_of(ParseErrorView::Path(PathErrorView::NotInHomeDirectory)).code == 64,
{
}

/// A resolved path is refused as outside the home directory as well where
/// it is too short to name the owner of a home directory, where that owner
/// is not the user, and where it or the home directory does not start at the
/// root.
pub proof fn law_owner_and_length_are_checked(
    path: Seq<char>,
    exact: bool,
    home: Seq<char>,
    user: Seq<char>,
)
    requires
        segments(path).len() < 2 || segments(path)[1] != user || !is_rooted(path) || !is_rooted(
            home,
        ),
    ensures
        checked_path(ResolutionView::Found { path, exact }, home, user) == Err::<
            Seq<char>,
            PathErrorView,
        >(PathErrorView::NotInHomeDirectory),
{
}

/// A path is accepted only where it lies in the home directory of the user:
/// the segments of the home directory are its first segments. It is then
/// handed back unchanged.
pub proof fn law_accepted_paths_are_in_home(
    resolution: ResolutionView,
    home: Seq<char>,
    user: Seq<char>,
)
    ensures
        checked_path(resolution, home, user) matches Ok(path) ==> {
            &&& in_home(path, home, user)
            &&& segments(home).is_prefix_of(segments(path))
            &&& resolution == (ResolutionView::Found { path, exact: true })
        },
{
}

/// The paths that come out of the check lie in the home directory of the
/// user, each of them.
proof fn lemma_checked_paths_in_home(
    resolutions: Seq<ResolutionView>,
    home: Seq<char>,
    user: Seq<char>,
    n: nat,
)
    ensures
        checked_paths(resolutions, home, user, n) matches Ok(paths) ==> paths.len() == n
            && forall|i: int|
            0 <= i < n ==> in_home(#[trigger] paths[i], home, user) && resolution_at(
                resolutions,
                i,
            ) == (ResolutionView::Found { path: paths[i], exact: true }),
    decreases n,
{
    if n > 0 {
        lemma_checked_paths_in_home(resolutions, home, user, (n - 1) as nat);
    }
}

/// An `add` never holds a file outside the home directory of the user: it
/// is read only where every file that it names lies inside, and then holds
/// the resolved paths of these files, in their order.
pub proof fn law_added_files_are_in_home(
    rest: Seq<Seq<char>>,
    resolutions: Seq<ResolutionView>,
    home: Option<Seq<char>>,
    user: Seq<char>,
)
    ensures
        add_args(rest, resolutions, home, user) matches Ok(args) ==> forall|i: int|
            0 <= i < args.values.len() ==> {
                &&& home matches Some(above)
                &&& in_home(#[trigger] args.values[i], above, user)
                &&& resolution_at(resolutions, i) == (ResolutionView::Found {
                    path: args.values[i],
                    exact: true,
                })
            },
{
    if home is Some {
        lemma_checked_paths_in_home(resolutions, home->0, user, rest.len());
    }
}

/// A run that has ended stays ended: every event is answered with `Exit`,
/// and nothing more is asked of the repository.
pub proof fn law_done_is_final(context: ContextView, state: StateView, event: EventView)
    requires
        state.phase is Done,
    ensures
        next_step(context, state, event).action is Exit,
        next_step(context, state, event).state.phase is Done,
{
    reveal(next_step);
}

/// The state after `n` actions in a row have succeeded, beginning with the
/// action of `first`.
pub open spec fn after_successes(context: ContextView, first: StepView, n: nat) -> StepView
    decreases n,
{
    if n == 0 {
        first
    } else {
        next_step(
            context,
            after_successes(context, first, (n - 1) as nat).state,
            EventView::Succeeded,
        )
    }
}

/// A commit in a repository without history creates an entry without
/// parents, and one in a repository with history creates an entry whose one
/// parent is the entry that `HEAD` names. Either way the entry gets the
/// message that the run holds.
pub proof fn law_history_decides_parents(context: ContextView, state: StateView, found: bool)
    requires
        state.phase is CheckingHistory,
    ensures
        ({
            let first = next_step(context, state, EventView::History(found));
            let message = state.message;
            &&& first.action == ActionView::ReadIdentity
            &&& after_successes(context, first, 1).action == ActionView::OpenIndex
            &&& after_successes(context, first, 2).action == ActionView::WriteTree
            &&& after_successes(context, first, 3).action == ActionView::FindTree
            &&& !found ==> after_successes(context, first, 4).action == (ActionView::CreateCommit {
                message,
                parents: Parents::Root,
            })
            &&& found ==> after_successes(context, first, 4).action == ActionView::ResolveParent
            &&& found ==> after_successes(context, first, 5).action == (ActionView::CreateCommit {
                message,
                parents: Parents::Head,
            })
        }),
{
    let first = next_step(context, state, EventView::History(found));
    let second = next_step(context, first.state, EventView::Succeeded);
    let third = next_step(context, second.state, EventView::Succeeded);
    let fourth = next_step(context, third.state, EventView::Succeeded);
    let fifth = next_step(context, fourth.state, EventView::Succeeded);
    let sixth = next_step(context, fifth.state, EventView::Succeeded);
    lemma_history_found(context, state, found);
    lemma_prepared(context, first.state);
    lemma_prepared(context, second.state);
    lemma_prepared(context, third.state);
    lemma_prepared(context, fourth.state);
    lemma_parent_resolved(context, fifth.state);
    assert(after_successes(context, first, 0) == first);
    assert(after_successes(context, first, 1) == second);
    assert(after_successes(context, first, 2) == third);
    assert(after_successes(context, first, 3) == fourth);
    assert(after_successes(context, first, 4) == fifth);
    assert(after_successes(context, first, 5) == sixth);
}

/// What follows once the history is known.
proof fn lemma_history_found(context: ContextView, state: StateView, found: bool)
    requires
        state.phase is CheckingHistory,
    ensures
        next_step(context, state, EventView::History(found)) == go(
            StateView { history: found, ..state },
            Phase::ReadingIdentity,
            Seq::empty(),
            ActionView::ReadIdentity,
        ),
{
    reveal(next_step);
}

/// What follows a success while a commit is prepared.
proof fn lemma_prepared(context: ContextView, state: StateView)
    ensures
        state.phase is ReadingIdentity ==> next_step(context, state, EventView::Succeeded) == go(
            state,
            Phase::OpeningCommitIndex,
            Seq::empty(),
            ActionView::OpenIndex,
        ),
        state.phase is OpeningCommitIndex ==> next_step(context, state, EventView::Succeeded)
            == go(state, Phase::WritingTree, Seq::empty(), ActionView::WriteTree),
        state.phase is WritingTree ==> next_step(context, state, EventView::Succeeded) == go(
            state,
            Phase::FindingTree,
            Seq::empty(),
            ActionView::FindTree,
        ),
        state.phase is FindingTree && state.history ==> next_step(
            context,
            state,
            EventView::Succeeded,
        ) == go(state, Phase::ResolvingParent, Seq::empty(), ActionView::ResolveParent),
        state.phase is FindingTree && !state.history ==> next_step(
            context,
            state,
            EventView::Succeeded,
        ) == go(
            state,
            Phase::Committing,
            Seq::empty(),
            ActionView::CreateCommit { message: state.message, parents: Parents::Root },
        ),
{
    reveal(next_step);
}

/// What follows once the parent is resolved.
proof fn lemma_parent_resolved(context: ContextView, state: StateView)
    ensures
        state.phase is ResolvingParent ==> next_step(context, state, EventView::Succeeded) == go(
            state,
            Phase::Committing,
            Seq::empty(),
            ActionView::CreateCommit { message: state.message, parents: Parents::Head },
        ),
{
    reveal(next_step);
}

/// A history entry is asked for at two places only, and with the message
/// that the run holds: once the tree is found in a repository without
/// history, for an entry without parents, and once the parent is resolved,
/// for an entry with that parent.
pub proof fn law_commit_follows_state(context: ContextView, state: StateView, event: EventView)
    ensures
        next_step(context, state, event).action matches ActionView::CreateCommit {
            message,
            parents,
        } ==> {
            &&& message == state.message
            &&& event is Succeeded
            &&& parents is Root ==> state.phase is FindingTree && !state.history
            &&& parents is Head ==> state.phase is ResolvingParent
        },
{
    reveal(next_step);
}

/// A message that is empty once it is stripped calls the commit off: the
/// run ends as aborted, and asks for no history entry and for no change of
/// the index.
pub proof fn law_empty_message_aborts(context: ContextView, state: StateView, text: Seq<char>)
    requires
        state.phase is Editing,
        stripped_message(text).len() == 0,
    ensures
        next_step(context, state, EventView::Edited(text)) == fail(
            state,
            Failure::Aborted,
            aborted_message(),
        ),
        next_step(context, state, EventView::Edited(text)).action == (ActionView::Exit {
            code: 1,
        }),
        next_step(context, state, EventView::Edited(text)).state.phase is Done,
{
    reveal(next_step);
}

/// Leaving the editor without writing anything calls the commit off.
pub proof fn law_untouched_template_aborts(context: ContextView, state: StateView)
    requires
        state.phase is Editing,
    ensures
        next_step(context, state, EventView::Edited(commit_template())) == fail(
            state,
            Failure::Aborted,
            aborted_message(),
        ),
{
    law_untouched_template_is_empty();
    law_empty_message_aborts(context, state, commit_template());
}

/// Staging every modified file stages the paths of the listing, in its
/// order, one after each success, and then writes the index: no other path
/// is staged.
pub proof fn law_add_all_stages_the_listing(
    context: ContextView,
    state: StateView,
    paths: Seq<Seq<char>>,
    i: nat,
)
    requires
        state.phase is ListingModified,
        paths.len() > 0,
        i <= paths.len(),
    ensures
        ({
            let first = next_step(
                context,
                state,
                EventView::Listed { paths, complete: true },
            );
            let reached = after_successes(context, first, i);
            &&& reached.state.queue == paths
            &&& reached.state.staged == i
            &&& reached.state.complete
            &&& i < paths.len() ==> reached.action == (ActionView::StagePath { path: paths[i as int] })
                && reached.state.phase is Staging
            &&& i == paths.len() ==> reached.action == ActionView::WriteIndex
                && reached.state.phase is WritingIndex
        }),
    decreases i,
{
    reveal(next_step);
    if i > 0 {
        law_add_all_stages_the_listing(context, state, paths, (i - 1) as nat);
    }
}

/// An empty listing of modified files stages nothing and writes nothing.
pub proof fn law_add_all_of_nothing(context: ContextView, state: StateView)
    requires
        state.phase is ListingModified,
    ensures
        ({
            let step = next_step(
                context,
                state,
                EventView::Listed { paths: Seq::empty(), complete: true },
            );
            step.action is Exit || step.action is Forward
        }),
{
    reveal(next_step);
}

/// The two listings of a status report are printed as the report: each in
/// its own section, and the notice that everything is up to date exactly
/// where both are empty.
pub proof fn law_status_report(
    context: ContextView,
    state: StateView,
    unstaged: Seq<Seq<char>>,
    staged: Seq<Seq<char>>,
)
    requires
        state.phase is ListingUnstaged,
    ensures
        ({
            let first = next_step(
                context,
                state,
                EventView::Listed { paths: unstaged, complete: true },
            );
            let second = next_step(
                context,
                first.state,
                EventView::Listed { paths: staged, complete: true },
            );
            &&& first.action == (ActionView::ListChanges { scope: StatusScope::Index })
            &&& first.out + second.out == status_report(
                wants_color(context.command),
                unstaged,
                staged,
            )
            &&& closing_notice(unstaged.len() == 0, staged.len() == 0).len() > 0 <==> unstaged.len()
                == 0 && staged.len() == 0
        }),
{
    reveal(next_step);
    reveal_strlit("Everything is upto date.\n");
    let has_color = wants_color(context.command);
    let first = next_step(context, state, EventView::Listed { paths: unstaged, complete: true });
    let second = next_step(
        context,
        first.state,
        EventView::Listed { paths: staged, complete: true },
    );
    assert(first.out + second.out =~= status_report(has_color, unstaged, staged));
}

/// A run ends with one of four exit codes of its own, or with the exit code
/// that git ended with.
pub proof fn law_exit_codes(context: ContextView, state: StateView, event: EventView)
    ensures
        next_step(context, state, event).action matches ActionView::Exit { code } ==> code == 0
            || code == 1 || code == 64 || code == 74 || event == EventView::Exited(Some(code)),
{
    reveal(next_step);
}

/// A step ends the run exactly where it asks for `Exit`.
pub proof fn law_exit_ends_the_run(context: ContextView, state: StateView, event: EventView)
    ensures
        next_step(context, state, event).action is Exit <==> next_step(
            context,
            state,
            event,
        ).state.phase is Done,
{
    reveal(next_step);
}

/// Git is run only for a `Passthrough`, with its tokens as they stand after
/// the arguments that name the home directory and the repository, and never
/// by a step that reports a failure.
pub proof fn law_forwarding(context: ContextView, state: StateView, event: EventView)
    ensures
        next_step(context, state, event).action matches ActionView::Forward { arguments } ==> {
            &&& forwarding(context.command) matches Some(tokens)
            &&& context.home matches Some(home)
            &&& arguments == git_arguments(home, context.store, tokens)
            &&& next_step(context, state, event).err.len() == 0
        },
{
    reveal(next_step);
}

/// What holds of the state of every run: while a commit is under way its
/// message is not empty, the parent is resolved only in a repository with
/// history, and no more paths are staged than are queued.
pub open spec fn consistent(state: StateView) -> bool {
    &&& state.staged <= state.queue.len()
    &&& state.phase is ResolvingParent ==> state.history
    &&& (state.phase is CheckingHistory || state.phase is ReadingIdentity
        || state.phase is OpeningCommitIndex || state.phase is WritingTree
        || state.phase is FindingTree || state.phase is ResolvingParent)
        ==> state.message.len() > 0
}

/// A run begins in a consistent state.
pub proof fn law_begins_consistent()
    ensures
        consistent(initial_state()),
{
}

/// Every step leaves a consistent state consistent.
pub proof fn law_stays_consistent(context: ContextView, state: StateView, event: EventView)
    requires
        consistent(state),
    ensures
        consistent(next_step(context, state, event).state),
{
    reveal(next_step);
}

/// In a run, a history entry is never asked for with an empty message, and
/// it is asked for with `HEAD` as its parent exactly where the repository
/// has a history.
pub proof fn law_commit_in_a_run(context: ContextView, state: StateView, event: EventView)
    requires
        consistent(state),
    ensures
        next_step(context, state, event).action matches ActionView::CreateCommit {
            message,
            parents,
        } ==> message.len() > 0 && (parents is Head <==> state.history),
{
    reveal(next_step);
}

} // verus!
