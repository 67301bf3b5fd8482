use git_home::args::ProgMode;
use git_home::git::{
    gen_init_comimt_args, is_affirmative, open_home_repo, resolve_git_repo, Session,
};
use git_home::workflow::{Action, Context, Event, Parents, Phase, State};

fn context(home: Option<&str>) -> Context {
    Context {
        command: ProgMode::Log,
        store: String::from("/home/ann/.config/git_home"),
        home: home.map(String::from),
    }
}

fn in_phase(phase: Phase) -> State {
    let mut state = State::new();
    state.phase = phase;
    state
}

fn pending(session: Session) -> git_home::workflow::Step {
    match session {
        Session::Pending(step) => step,
        Session::Ready(_) => panic!("the session is ready"),
    }
}

#[test]
fn store_from_the_environment() {
    assert_eq!(
        resolve_git_repo(Some(String::from("/srv/dots")), Some(String::from("/home/ann"))),
        Ok(String::from("/srv/dots"))
    );
    assert_eq!(resolve_git_repo(Some(String::new()), None), Ok(String::new()));
}

#[test]
fn default_store_lies_below_home() {
    assert_eq!(
        resolve_git_repo(None, Some(String::from("/home/ann"))),
        Err(String::from("/home/ann/.config/git_home"))
    );
}

#[test]
fn default_store_without_home() {
    assert_eq!(resolve_git_repo(None, None), Err(String::from(".config/git_home")));
    assert_eq!(resolve_git_repo(None, Some(String::new())), Err(String::from(".config/git_home")));
}

#[test]
fn yes_is_y_and_a_line_ending() {
    assert!(is_affirmative("y\n"));
    assert!(!is_affirmative("y"));
    assert!(!is_affirmative("n\n"));
    assert!(!is_affirmative("yes\n"));
    assert!(!is_affirmative("yz"));
    assert!(!is_affirmative("y\r\n"));
    assert!(!is_affirmative("Y\n"));
    assert!(!is_affirmative(""));
}

#[test]
fn opening_needs_a_home_directory() {
    let step = pending(open_home_repo(&context(None), State::new(), &Event::Begin));
    assert_eq!(step.action, Action::Exit { code: 1 });
    assert_eq!(step.err, "Could not get value of $HOME.\n");
    assert_eq!(step.state.phase, Phase::Done);
}

#[test]
fn opening_begins_with_the_store() {
    let step = pending(open_home_repo(&context(Some("/home/ann")), State::new(), &Event::Begin));
    assert_eq!(step.action, Action::OpenStore { path: String::from("/home/ann/.config/git_home") });
    assert_eq!(step.state.phase, Phase::Opening);
    assert_eq!(step.out, "");
}

#[test]
fn open_store_is_bound_to_home() {
    let step = pending(open_home_repo(
        &context(Some("/home/ann")),
        in_phase(Phase::Opening),
        &Event::Succeeded,
    ));
    assert_eq!(step.action, Action::BindWorkTree { home: String::from("/home/ann") });
    assert_eq!(step.state.phase, Phase::Binding);
}

#[test]
fn missing_store_is_asked_about() {
    let step = pending(open_home_repo(
        &context(Some("/home/ann")),
        in_phase(Phase::Opening),
        &Event::Failed(String::from("not found")),
    ));
    assert_eq!(step.action, Action::Ask);
    assert_eq!(
        step.out,
        "Git home repo doesn't exist, create one now at /home/ann/.config/git_home?\n(y/n) "
    );
    assert_eq!(step.state.phase, Phase::Confirming);
}

#[test]
fn yes_creates_the_store() {
    let step = pending(open_home_repo(
        &context(Some("/home/ann")),
        in_phase(Phase::Confirming),
        &Event::Answered(String::from("y\n")),
    ));
    assert_eq!(
        step.action,
        Action::CreateStore { path: String::from("/home/ann/.config/git_home") }
    );
    assert_eq!(step.out, "Creating git home repo: /home/ann/.config/git_home.\n");
    assert_eq!(step.state.phase, Phase::Creating);
}

#[test]
fn no_ends_the_run_without_a_store() {
    let step = pending(open_home_repo(
        &context(Some("/home/ann")),
        in_phase(Phase::Confirming),
        &Event::Answered(String::from("n\n")),
    ));
    assert_eq!(step.action, Action::Exit { code: 1 });
    assert_eq!(
        step.out,
        "You can create a new repository at any time by running 'git home init'.\n"
    );
    assert_eq!(step.state.phase, Phase::Done);
}

#[test]
fn failures_while_opening() {
    let step = pending(open_home_repo(
        &context(Some("/home/ann")),
        in_phase(Phase::Creating),
        &Event::Failed(String::from("denied")),
    ));
    assert_eq!(step.action, Action::Exit { code: 74 });
    assert_eq!(
        step.err,
        "Could not initialize git_home directory at /home/ann/.config/git_home: denied\n"
    );
    let step = pending(open_home_repo(
        &context(Some("/home/ann")),
        in_phase(Phase::Binding),
        &Event::Failed(String::from("denied")),
    ));
    assert_eq!(step.action, Action::Exit { code: 74 });
    assert_eq!(step.err, "Could not set working dir to denied\n");
    let step = pending(open_home_repo(
        &context(Some("/home/ann")),
        in_phase(Phase::Confirming),
        &Event::Failed(String::from("closed")),
    ));
    assert_eq!(step.action, Action::Exit { code: 1 });
    assert_eq!(step.err, "closed\n");
}

#[test]
fn bound_store_is_ready() {
    let session =
        open_home_repo(&context(Some("/home/ann")), in_phase(Phase::Binding), &Event::Succeeded);
    assert_eq!(session, Session::Ready(in_phase(Phase::Binding)));
}

#[test]
fn event_that_cannot_follow_ends_the_run() {
    let step = pending(open_home_repo(
        &context(Some("/home/ann")),
        in_phase(Phase::Opening),
        &Event::History(true),
    ));
    assert_eq!(step.action, Action::Exit { code: 74 });
    assert_eq!(step.err, "");
    assert_eq!(step.state.phase, Phase::Done);
}

#[test]
fn commit_is_prepared_in_order() {
    let step = gen_init_comimt_args(in_phase(Phase::ReadingIdentity), &Event::Succeeded);
    assert_eq!((step.action, step.state.phase), (Action::OpenIndex, Phase::OpeningCommitIndex));
    let step = gen_init_comimt_args(step.state, &Event::Succeeded);
    assert_eq!((step.action, step.state.phase), (Action::WriteTree, Phase::WritingTree));
    let step = gen_init_comimt_args(step.state, &Event::Succeeded);
    assert_eq!((step.action, step.state.phase), (Action::FindTree, Phase::FindingTree));
}

#[test]
fn tree_without_history_gets_a_root_entry() {
    let mut state = in_phase(Phase::FindingTree);
    state.message = String::from("first");
    let step = gen_init_comimt_args(state, &Event::Succeeded);
    assert_eq!(
        step.action,
        Action::CreateCommit { message: String::from("first"), parents: Parents::Root }
    );
    assert_eq!(step.state.phase, Phase::Committing);
}

#[test]
fn tree_with_history_has_the_parent_resolved() {
    let mut state = in_phase(Phase::FindingTree);
    state.history = true;
    let step = gen_init_comimt_args(state, &Event::Succeeded);
    assert_eq!(step.action, Action::ResolveParent);
    assert_eq!(step.state.phase, Phase::ResolvingParent);
}

#[test]
fn failures_while_preparing_a_commit() {
    let failed = Event::Failed(String::from("x"));
    let step = gen_init_comimt_args(in_phase(Phase::ReadingIdentity), &failed);
    assert_eq!(step.action, Action::Exit { code: 74 });
    assert_eq!(
        step.err,
        "Unable to create a commit signiture.\nPerhaps 'user.name' and 'user.email' are not set\n"
    );
    let step = gen_init_comimt_args(in_phase(Phase::OpeningCommitIndex), &failed);
    assert_eq!(step.action, Action::Exit { code: 74 });
    assert_eq!(step.err, "Could not open repository index.\n");
    let step = gen_init_comimt_args(in_phase(Phase::WritingTree), &failed);
    assert_eq!(step.action, Action::Exit { code: 74 });
    assert_eq!(step.err, "Unable to write initial tree form index.\n");
    let step = gen_init_comimt_args(in_phase(Phase::FindingTree), &failed);
    assert_eq!(step.action, Action::Exit { code: 74 });
    assert_eq!(step.err, "Could not look up initial tree\n");
}
