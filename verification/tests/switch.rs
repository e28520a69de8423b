use shuu::flow::{err, info, success, Act, App, Reply, Request, Step};
use shuu::git::worktree_list;
use shuu::i18n::{messages, Lang};
use shuu::menu::MenuSpec;
use shuu::git::Worktree;
use shuu::switch::{cmd_switch, current_in, switch_labels_of, SwitchState, SWITCH_TARGET_FILE};

fn app() -> App {
    App { lang: Lang::En, messages: messages(Lang::En), config_dir: "/cfg/shuu".to_string() }
}

const LISTING: &str = "/r  aaa [main]\n/r-worktrees/x  bbb [feat/x]\n/r-worktrees/y  ccc [fix/y]\n";

fn run(
    is_repo: bool,
    listing: Option<&str>,
    here: Option<&str>,
    choice: Option<usize>,
) -> (Vec<Act>, Vec<Request>) {
    let app = app();
    let mut state = SwitchState::Start;
    let mut reply = Reply::Start;
    let mut acts = Vec::new();
    let mut asked = Vec::new();
    loop {
        let (next, step) = cmd_switch(&app, state, reply);
        state = next;
        acts.extend(step.acts);
        asked.push(step.request.clone());
        reply = match step.request {
            Request::IsRepo => Reply::Status(is_repo),
            Request::ListWorktrees => Reply::Output(listing.map(|s| s.to_string())),
            Request::CurrentDir => Reply::Output(here.map(|s| s.to_string())),
            Request::Select(_) => Reply::Selected(choice),
            Request::Done | Request::Exit(_) => {
                assert_eq!(state, SwitchState::Finished);
                return (acts, asked);
            }
            other => panic!("the switch workflow asked for {:?}", other),
        };
    }
}

#[test]
fn switching_leaves_the_chosen_path_for_the_shell() {
    let m = messages(Lang::En);
    let (acts, asked) = run(true, Some(LISTING), Some("/r-worktrees/x/src"), Some(2));
    assert_eq!(SWITCH_TARGET_FILE, "/tmp/.shuu_cd_target");
    assert_eq!(
        acts,
        vec![
            Act::Say(success(&m.switching_to.replacen("%s", "fix/y", 1))),
            Act::WriteFile {
                path: "/tmp/.shuu_cd_target".to_string(),
                content: "/r-worktrees/y".to_string(),
            },
        ]
    );
    assert_eq!(
        asked,
        vec![
            Request::IsRepo,
            Request::ListWorktrees,
            Request::CurrentDir,
            Request::Select(MenuSpec {
                title: m.select_wt_switch.to_string(),
                // the working directory lies in one worktree only
                items: vec![
                    "main  /r".to_string(),
                    "feat/x  /r-worktrees/x (current)".to_string(),
                    "fix/y  /r-worktrees/y".to_string(),
                ],
                hint: m.menu_hint.to_string(),
            }),
            Request::Done,
        ]
    );
}

#[test]
fn only_the_worktree_of_the_working_directory_is_marked() {
    let list = worktree_list(Some(LISTING));
    // inside the main worktree
    assert_eq!(
        switch_labels_of(&list, "/r/deep/inside"),
        vec!["main  /r (current)", "feat/x  /r-worktrees/x", "fix/y  /r-worktrees/y"]
    );
    assert_eq!(
        switch_labels_of(&list, "/r"),
        vec!["main  /r (current)", "feat/x  /r-worktrees/x", "fix/y  /r-worktrees/y"]
    );
    // at another worktree, whose path begins with the main worktree's
    assert_eq!(
        switch_labels_of(&list, "/r-worktrees/y"),
        vec!["main  /r", "feat/x  /r-worktrees/x", "fix/y  /r-worktrees/y (current)"]
    );
    // beside the worktrees, in none of them
    assert_eq!(
        switch_labels_of(&list, "/r-worktrees"),
        vec!["main  /r", "feat/x  /r-worktrees/x", "fix/y  /r-worktrees/y"]
    );
    assert_eq!(
        switch_labels_of(&list, "/r-worktrees/xy"),
        vec!["main  /r", "feat/x  /r-worktrees/x", "fix/y  /r-worktrees/y"]
    );
    assert_eq!(
        switch_labels_of(&list, ""),
        vec!["main  /r", "feat/x  /r-worktrees/x", "fix/y  /r-worktrees/y"]
    );
    let (_, asked) = run(true, Some(LISTING), None, None);
    assert!(matches!(&asked[3], Request::Select(menu) if !menu.items.iter().any(|i| i.contains("current"))));
}

#[test]
fn two_worktrees_one_of_them_current() {
    let (_, asked) =
        run(true, Some("/r  a [main]\n/r-worktrees/x  b [x]\n"), Some("/r-worktrees/x"), None);
    match &asked[3] {
        Request::Select(menu) => {
            assert_eq!(menu.items, vec!["main  /r", "x  /r-worktrees/x (current)"]);
        }
        other => panic!("not a menu: {:?}", other),
    }
}

#[test]
fn the_working_directory_matches_at_a_component_boundary() {
    let at = |path: &str| Worktree {
        path: path.to_string(),
        hash: String::new(),
        branch: String::new(),
    };
    for (path, here, expected) in [
        ("/r", "/r", true),
        ("/r", "/r/", true),
        ("/r", "/r/a/b", true),
        ("/r", "/r-worktrees/x", false),
        ("/r", "/rr", false),
        ("/r", "/", false),
        ("/r", "", false),
        ("/r/x", "/r", false),
        ("/a b", "/a b/c", true),
        ("", "", true),
        ("", "/x", true),
        ("", "x", false),
    ] {
        assert_eq!(current_in(&at(path), here), expected, "{:?} in {:?}", here, path);
    }
}

#[test]
fn switch_ends_early_where_there_is_nothing_to_do() {
    let m = messages(Lang::En);
    let (acts, asked) = run(false, Some(LISTING), None, None);
    assert_eq!(acts, vec![Act::Say(err(m.not_git_repo))]);
    assert_eq!(asked.last(), Some(&Request::Exit(1)));
    for listing in [None, Some(""), Some("/r  aaa [main]\n")] {
        let (acts, asked) = run(true, listing, None, Some(0));
        assert_eq!(acts, vec![Act::Say(info(m.no_wt_to_switch))]);
        assert_eq!(asked, vec![Request::IsRepo, Request::ListWorktrees, Request::Done]);
    }
    let (acts, asked) = run(true, Some(LISTING), Some("/"), None);
    assert!(acts.is_empty());
    assert_eq!(asked.last(), Some(&Request::Done));
    let (acts, asked) = run(true, Some(LISTING), Some("/"), Some(3));
    assert!(acts.is_empty());
    assert_eq!(asked.last(), Some(&Request::Exit(1)));
    let (next, step) = cmd_switch(&app(), SwitchState::Listing, Reply::Status(true));
    assert_eq!(next, SwitchState::Finished);
    assert_eq!(step, Step { acts: Vec::new(), request: Request::Exit(1) });
}
