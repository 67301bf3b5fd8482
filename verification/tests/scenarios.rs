use git_home::args::{add_targets, format_args, ProgMode};
use git_home::git::resolve_git_repo;
use git_home::path::Resolution;
use git_home::run::step;
use git_home::workflow::{Action, Context, Event, Parents, State, StatusScope};

fn strings(tokens: &[&str]) -> Vec<String> {
    tokens.iter().map(|token| String::from(*token)).collect()
}

/// A run for `tokens` in the home directory of ann, without `GIT_HOME_DIR`.
fn context(tokens: &[&str], resolutions: &Vec<Resolution>) -> Context {
    let home = Some(String::from("/home/ann"));
    let store = match resolve_git_repo(None, home.clone()) {
        Ok(path) | Err(path) => path,
    };
    let command = format_args(strings(tokens), &None, &home, "ann", resolutions).unwrap();
    Context { command, store, home }
}

/// The actions that the run asks for when it is answered with `script`.
fn actions(context: &Context, script: Vec<Event>) -> Vec<Action> {
    let mut asked = Vec::new();
    let mut state = State::new();
    let mut events = vec![Event::Begin];
    events.extend(script);
    for event in events {
        let next = step(context, state, &event);
        state = next.state;
        asked.push(next.action);
    }
    asked
}

#[test]
fn init_creates_a_store_at_the_default_location() {
    let context = context(&["init"], &Vec::new());
    assert_eq!(
        actions(&context, vec![Event::Succeeded]),
        vec![
            Action::CreateStore { path: String::from("/home/ann/.config/git_home") },
            Action::Exit { code: 0 },
        ]
    );
}

#[test]
fn missing_store_is_created_after_yes_at_the_default_location() {
    let context = context(&["status"], &Vec::new());
    let asked = actions(
        &context,
        vec![
            Event::Failed(String::from("could not find repository")),
            Event::Answered(String::from("y\n")),
            Event::Succeeded,
            Event::Succeeded,
            Event::Listed { paths: Vec::new(), complete: true },
            Event::Listed { paths: Vec::new(), complete: true },
        ],
    );
    assert_eq!(
        asked,
        vec![
            Action::OpenStore { path: String::from("/home/ann/.config/git_home") },
            Action::Ask,
            Action::CreateStore { path: String::from("/home/ann/.config/git_home") },
            Action::BindWorkTree { home: String::from("/home/ann") },
            Action::ListChanges { scope: StatusScope::WorkTree },
            Action::ListChanges { scope: StatusScope::Index },
            Action::Exit { code: 0 },
        ]
    );
}

#[test]
fn missing_store_is_not_created_after_no() {
    let context = context(&["status"], &Vec::new());
    let asked = actions(
        &context,
        vec![
            Event::Failed(String::from("could not find repository")),
            Event::Answered(String::from("n\n")),
        ],
    );
    assert!(!asked.iter().any(|action| matches!(action, Action::CreateStore { .. })));
    assert_eq!(asked.last(), Some(&Action::Exit { code: 1 }));
}

#[test]
fn commit_runs_first_and_git_decides_the_exit_code() {
    let context = context(&["commit", "-m", "fix typo", "--", "log", "-1"], &Vec::new());
    let asked = actions(
        &context,
        vec![
            Event::Succeeded,
            Event::Succeeded,
            Event::History(true),
            Event::Succeeded,
            Event::Succeeded,
            Event::Succeeded,
            Event::Succeeded,
            Event::Succeeded,
            Event::Succeeded,
            Event::Exited(Some(42)),
        ],
    );
    assert_eq!(
        asked,
        vec![
            Action::OpenStore { path: String::from("/home/ann/.config/git_home") },
            Action::BindWorkTree { home: String::from("/home/ann") },
            Action::LookUpHead,
            Action::ReadIdentity,
            Action::OpenIndex,
            Action::WriteTree,
            Action::FindTree,
            Action::ResolveParent,
            Action::CreateCommit { message: String::from("fix typo"), parents: Parents::Head },
            Action::Forward {
                arguments: strings(&[
                    "-C",
                    "/home/ann",
                    "--work-tree",
                    ".",
                    "--git-dir",
                    "/home/ann/.config/git_home",
                    "-c",
                    "status.showUntrackedFiles=no",
                    "--no-pager",
                    "log",
                    "-1",
                ]),
            },
            Action::Exit { code: 42 },
        ]
    );
}

#[test]
fn add_resolves_its_files_and_stages_them_below_home() {
    let args = strings(&["add", ".bashrc", "notes/todo.org"]);
    assert_eq!(add_targets(&args), strings(&[".bashrc", "notes/todo.org"]));
    let resolutions = vec![
        Resolution::Found { path: String::from("/home/ann/.bashrc"), exact: true },
        Resolution::Found { path: String::from("/home/ann/notes/todo.org"), exact: true },
    ];
    let context = context(&["add", ".bashrc", "notes/todo.org"], &resolutions);
    let asked = actions(
        &context,
        vec![
            Event::Succeeded,
            Event::Succeeded,
            Event::Succeeded,
            Event::Succeeded,
            Event::Succeeded,
            Event::Succeeded,
        ],
    );
    assert_eq!(&asked[3..], &[
        Action::StagePath { path: String::from(".bashrc") },
        Action::StagePath { path: String::from("notes/todo.org") },
        Action::WriteIndex,
        Action::Exit { code: 0 },
    ]);
}

#[test]
fn unknown_command_with_tokens_is_pure_forwarding() {
    let context = context(&["--", "diff"], &Vec::new());
    assert_eq!(context.command, ProgMode::Passthrough(None, strings(&["diff"])));
    let asked = actions(&context, vec![Event::Exited(Some(1))]);
    assert!(matches!(asked[0], Action::Forward { .. }));
    assert_eq!(asked[1], Action::Exit { code: 1 });
}

#[test]
fn status_with_a_bare_separator_is_followed_by_git() {
    let context = context(&["status", "--"], &Vec::new());
    let asked = actions(
        &context,
        vec![
            Event::Succeeded,
            Event::Succeeded,
            Event::Listed { paths: Vec::new(), complete: true },
            Event::Listed { paths: Vec::new(), complete: true },
            Event::Exited(Some(1)),
        ],
    );
    assert!(matches!(&asked[4], Action::Forward { arguments } if arguments.len() == 9));
    assert_eq!(asked[5], Action::Exit { code: 1 });
}
