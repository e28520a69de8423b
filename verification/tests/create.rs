use shuu::ai::build_prompt;
use shuu::create::{cmd_create, suggester_args_of, CreateSession, CreateState, Target};
use shuu::flow::{err, info, prompt, success, Act, App, Reply, Request, Step};
use shuu::i18n::{messages, Lang};
use shuu::menu::MenuSpec;

fn app() -> App {
    App { lang: Lang::En, messages: messages(Lang::En), config_dir: "/cfg/shuu".to_string() }
}

/// A repository, a suggester, a disk and a user, and a record of what was
/// asked and done.
struct World {
    is_repo: bool,
    listing: Option<String>,
    model: Option<String>,
    suggestions: Vec<Option<&'static str>>,
    dirs: Vec<String>,
    new_branch_works: bool,
    existing_branch_works: bool,
    choices: Vec<Option<usize>>,
    answers: Vec<&'static str>,
    acts: Vec<Act>,
    asked: Vec<Request>,
}

impl World {
    fn new() -> World {
        World {
            is_repo: true,
            listing: Some("/home/user/my-repo  abc1234 [main]\n".to_string()),
            model: None,
            suggestions: Vec::new(),
            dirs: Vec::new(),
            new_branch_works: true,
            existing_branch_works: true,
            choices: Vec::new(),
            answers: Vec::new(),
            acts: Vec::new(),
            asked: Vec::new(),
        }
    }

    fn answer(&mut self, request: &Request) -> Reply {
        match request {
            Request::IsRepo => Reply::Status(self.is_repo),
            Request::ListWorktrees => Reply::Output(self.listing.clone()),
            Request::ReadFile(path) => {
                assert_eq!(path, "/cfg/shuu/model");
                Reply::Output(self.model.clone())
            }
            Request::Suggest { .. } => {
                let next = if self.suggestions.is_empty() { None } else { self.suggestions.remove(0) };
                Reply::Output(next.map(|s| s.to_string()))
            }
            Request::Select(_) => Reply::Selected(self.choices.remove(0)),
            Request::ReadLine(_) => Reply::Line(format!("{}\n", self.answers.remove(0))),
            Request::IsDir(path) => Reply::Status(self.dirs.contains(path)),
            Request::AddWorktree { path, new_branch, .. } => {
                let works =
                    if *new_branch { self.new_branch_works } else { self.existing_branch_works };
                if works {
                    self.dirs.push(path.clone());
                }
                Reply::Status(works)
            }
            other => panic!("the create workflow asked for {:?}", other),
        }
    }

    fn run(&mut self, description: &str) -> Request {
        let app = app();
        let mut state = CreateState::Start(description.to_string());
        let mut reply = Reply::Start;
        loop {
            let (next, step) = cmd_create(&app, state, reply);
            let Step { acts, request } = step;
            self.acts.extend(acts);
            state = next;
            self.asked.push(request.clone());
            match request {
                Request::Done | Request::Exit(_) | Request::Run(_) => {
                    assert_eq!(state, CreateState::Finished);
                    return request;
                }
                _ => reply = self.answer(&request),
            }
        }
    }

    fn said(&self) -> Vec<String> {
        self.acts
            .iter()
            .filter_map(|act| match act {
                Act::Say(line) => Some(line.clone()),
                _ => None,
            })
            .collect()
    }

    fn adds(&self) -> usize {
        self.asked.iter().filter(|r| matches!(r, Request::AddWorktree { .. })).count()
    }
}

fn branch_menu(suggested: &str) -> Request {
    let m = messages(Lang::En);
    Request::Select(MenuSpec {
        title: m.select_branch.to_string(),
        items: vec![suggested.to_string(), m.enter_manually.to_string(), m.regenerate.to_string()],
        hint: m.menu_hint.to_string(),
    })
}

#[test]
fn accepting_the_suggestion_creates_the_worktree() {
    let m = messages(Lang::En);
    let mut world = World::new();
    world.choices = vec![Some(0)];
    assert_eq!(world.run("Add Login Feature"), Request::Done);
    let path = "/home/user/my-repo-worktrees/feat-add-login-feature";
    assert_eq!(
        world.asked,
        vec![
            Request::IsRepo,
            Request::ListWorktrees,
            Request::ReadFile("/cfg/shuu/model".to_string()),
            Request::Suggest {
                notice: info(m.generating_branch),
                args: vec!["-p".to_string(), build_prompt("Add Login Feature", "")],
            },
            branch_menu("feat/add-login-feature"),
            Request::IsDir(path.to_string()),
            Request::AddWorktree {
                path: path.to_string(),
                branch: "feat/add-login-feature".to_string(),
                new_branch: true,
            },
            Request::Done,
        ]
    );
    assert_eq!(
        world.acts,
        vec![
            Act::MakeDir("/home/user/my-repo-worktrees".to_string()),
            Act::Say(info(m.creating_wt)),
            Act::Say(success(m.wt_created)),
            Act::Say(String::new()),
            Act::Say(format!("  \x1b[2m{}\x1b[0m {}", m.path, path)),
            Act::Say(format!("  \x1b[2m{}\x1b[0m feat/add-login-feature", m.branch)),
            Act::Say(String::new()),
            Act::Say(format!(
                "\x1b[0;36m\u{25b8}\x1b[0m {} \x1b[1mshuu switch\x1b[0m",
                m.to_switch
            )),
        ]
    );
}

#[test]
fn collision_fails_before_anything_is_added() {
    let m = messages(Lang::En);
    let mut world = World::new();
    world.dirs = vec!["/home/user/my-repo-worktrees/feat-add-login".to_string()];
    world.choices = vec![Some(0)];
    assert_eq!(world.run("add login"), Request::Exit(1));
    assert_eq!(world.adds(), 0);
    assert_eq!(
        world.acts,
        vec![Act::Say(err(&format!(
            "{}: /home/user/my-repo-worktrees/feat-add-login",
            m.wt_already_exists
        )))]
    );
    assert_eq!(world.dirs.len(), 1);

    // straight at the step: whatever the target, a taken place ends it
    let target = Target { dir: "/w".into(), path: "/w/x".into(), branch: "x".into() };
    let (next, step) = cmd_create(&app(), CreateState::CheckingTarget(target), Reply::Status(true));
    assert_eq!(next, CreateState::Finished);
    assert_eq!(
        step,
        Step {
            acts: vec![Act::Say(err(&format!("{}: /w/x", m.wt_already_exists)))],
            request: Request::Exit(1),
        }
    );
}

#[test]
fn the_suggester_is_asked_with_the_saved_model() {
    let mut world = World::new();
    world.model = Some("opus".to_string());
    world.suggestions = vec![Some(" fix/login \nmore\n")];
    world.choices = vec![Some(0)];
    assert_eq!(world.run("repair login"), Request::Done);
    assert!(world.asked.contains(&Request::Suggest {
        notice: info(messages(Lang::En).generating_branch),
        args: vec![
            "--model".to_string(),
            "opus".to_string(),
            "-p".to_string(),
            build_prompt("repair login", ""),
        ],
    }));
    assert!(world.asked.contains(&branch_menu("fix/login")));
    assert!(world.asked.contains(&Request::AddWorktree {
        path: "/home/user/my-repo-worktrees/fix-login".to_string(),
        branch: "fix/login".to_string(),
        new_branch: true,
    }));
    // an empty model file names no model
    assert_eq!(suggester_args_of(None, "q".to_string()), vec!["-p", "q"]);
    let mut world = World::new();
    world.model = Some(String::new());
    world.choices = vec![None];
    world.run("x");
    assert!(world
        .asked
        .iter()
        .any(|r| matches!(r, Request::Suggest { args, .. } if args.len() == 2)));
}

#[test]
fn a_description_is_asked_for_when_none_is_given() {
    let m = messages(Lang::En);
    let mut world = World::new();
    world.answers = vec!["  add login  "];
    world.choices = vec![Some(0)];
    assert_eq!(world.run(""), Request::Done);
    assert_eq!(world.asked[2], Request::ReadLine(prompt(m.what_to_implement)));
    assert!(world.asked.contains(&branch_menu("feat/add-login")));

    let mut world = World::new();
    world.answers = vec!["   "];
    assert_eq!(world.run(""), Request::Exit(1));
    assert_eq!(world.said(), vec![err(m.enter_desc)]);
    assert_eq!(world.adds(), 0);
}

#[test]
fn manual_entry_and_feedback_loop_back_on_empty_input() {
    let m = messages(Lang::En);
    let mut world = World::new();
    world.choices = vec![Some(1), Some(2), Some(2), Some(7), Some(1)];
    world.answers = vec!["", " ", "shorter please", " my/own/name "];
    world.suggestions = vec![None, Some("feat/short")];
    assert_eq!(world.run("add login"), Request::Done);
    assert_eq!(
        world.said()[..2],
        [err(m.enter_branch_name), err(m.enter_feedback)]
    );
    let suggests: Vec<&Request> =
        world.asked.iter().filter(|r| matches!(r, Request::Suggest { .. })).collect();
    assert_eq!(suggests.len(), 2);
    assert_eq!(
        suggests[1],
        &Request::Suggest {
            notice: info(m.generating_branch),
            args: vec!["-p".to_string(), build_prompt("add login", "shorter please")],
        }
    );
    let menus: Vec<&Request> =
        world.asked.iter().filter(|r| matches!(r, Request::Select(_))).collect();
    assert_eq!(
        menus,
        vec![
            &branch_menu("feat/add-login"),
            &branch_menu("feat/add-login"),
            &branch_menu("feat/add-login"),
            &branch_menu("feat/short"),
            &branch_menu("feat/short"),
        ]
    );
    assert!(world.asked.contains(&Request::ReadLine(prompt(m.branch_name))));
    assert!(world.asked.contains(&Request::ReadLine(prompt(m.feedback))));
    assert!(world.asked.contains(&Request::AddWorktree {
        path: "/home/user/my-repo-worktrees/my-own-name".to_string(),
        branch: "my/own/name".to_string(),
        new_branch: true,
    }));
}

#[test]
fn an_existing_branch_is_tried_when_a_new_one_fails() {
    let m = messages(Lang::En);
    let mut world = World::new();
    world.new_branch_works = false;
    world.choices = vec![Some(0)];
    assert_eq!(world.run("add login"), Request::Done);
    assert_eq!(world.adds(), 2);
    assert!(world.said().contains(&success(m.wt_created_existing)));
    assert!(!world.said().contains(&success(m.wt_created)));
    let at = world.asked.len() - 2;
    assert_eq!(
        world.asked[at],
        Request::AddWorktree {
            path: "/home/user/my-repo-worktrees/feat-add-login".to_string(),
            branch: "feat/add-login".to_string(),
            new_branch: false,
        }
    );

    let mut world = World::new();
    world.new_branch_works = false;
    world.existing_branch_works = false;
    world.choices = vec![Some(0)];
    assert_eq!(world.run("add login"), Request::Exit(1));
    assert_eq!(world.adds(), 2);
    assert_eq!(world.said().last(), Some(&err(m.wt_create_failed)));
}

#[test]
fn fatal_ends_of_the_create_workflow() {
    let m = messages(Lang::En);
    let mut world = World::new();
    world.is_repo = false;
    assert_eq!(world.run("x"), Request::Exit(1));
    assert_eq!(world.said(), vec![err(m.not_git_repo)]);

    for listing in [None, Some(String::new()), Some("/  abc [main]\n".to_string())] {
        let mut world = World::new();
        world.listing = listing;
        assert_eq!(world.run("x"), Request::Exit(1));
        assert_eq!(world.said(), vec![err("Could not determine worktrees directory")]);
        assert_eq!(world.asked.len(), 3);
    }

    let mut world = World::new();
    world.choices = vec![None];
    assert_eq!(world.run("x"), Request::Exit(1));
    assert!(world.said().is_empty());
    assert_eq!(world.adds(), 0);
}

#[test]
fn replies_out_of_turn_end_the_create_workflow_in_failure() {
    let app = app();
    let session =
        CreateSession { dir: "/w".into(), description: "d".into(), suggested: "feat/d".into() };
    let target = Target { dir: "/w".into(), path: "/w/feat-d".into(), branch: "feat/d".into() };
    let cases = vec![
        (CreateState::Start("d".into()), Reply::Status(true)),
        (CreateState::CheckingRepo("d".into()), Reply::Start),
        (CreateState::Listing("d".into()), Reply::Line("x".into())),
        (CreateState::AskingDescription { dir: "/w".into() }, Reply::Selected(None)),
        (
            CreateState::LoadingModel { dir: "/w".into(), description: "d".into(), feedback: "".into() },
            Reply::Status(true),
        ),
        (CreateState::Suggesting { dir: "/w".into(), description: "d".into() }, Reply::Start),
        (CreateState::Choosing(session.clone()), Reply::Line("0".into())),
        (CreateState::EnteringName(session.clone()), Reply::Status(true)),
        (CreateState::EnteringFeedback(session), Reply::Output(None)),
        (CreateState::CheckingTarget(target.clone()), Reply::Line("n".into())),
        (CreateState::AddingNew(target.clone()), Reply::Output(None)),
        (CreateState::AddingExisting(target), Reply::Selected(Some(0))),
        (CreateState::Finished, Reply::Start),
        (CreateState::Finished, Reply::Status(false)),
    ];
    for (state, reply) in cases {
        let (next, step) = cmd_create(&app, state, reply);
        assert_eq!(next, CreateState::Finished);
        assert_eq!(step, Step { acts: Vec::new(), request: Request::Exit(1) });
    }
}
