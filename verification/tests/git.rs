use shuu::flow::{git_args, Request};
use shuu::git::{
    branch_delete, branch_force_delete, compute_worktrees_dir, is_git_repo, main_worktree,
    parse_worktree_line, worktree_add, worktree_force_remove, worktree_list, worktree_remove,
    worktrees_dir, AddAttempt, AddStep,
};

#[test]
fn test_parse_worktree_line_valid() {
    let line = "/home/user/repo  abc1234 [main]";
    let wt = parse_worktree_line(line).unwrap();
    assert_eq!(wt.path, "/home/user/repo");
    assert_eq!(wt.hash, "abc1234");
    assert_eq!(wt.branch, "main");
}

#[test]
fn test_parse_worktree_line_strips_brackets() {
    let line = "/tmp/wt  deadbeef [feat/login]";
    let wt = parse_worktree_line(line).unwrap();
    assert_eq!(wt.branch, "feat/login");
}

#[test]
fn test_parse_worktree_line_too_few_parts() {
    assert!(parse_worktree_line("/only/path").is_none());
    assert!(parse_worktree_line("").is_none());
}

#[test]
fn test_parse_worktree_line_extra_parts() {
    let line = "/path  abc1234 [main] extra";
    let wt = parse_worktree_line(line).unwrap();
    assert_eq!(wt.path, "/path");
    assert_eq!(wt.hash, "abc1234");
    assert_eq!(wt.branch, "main");
}

#[test]
fn test_compute_worktrees_dir_normal() {
    let result = compute_worktrees_dir("/home/user/my-repo").unwrap();
    assert_eq!(result, "/home/user/my-repo-worktrees");
}

#[test]
fn test_compute_worktrees_dir_nested() {
    let result = compute_worktrees_dir("/a/b/c/project").unwrap();
    assert_eq!(result, "/a/b/c/project-worktrees");
}

#[test]
fn test_compute_worktrees_dir_root_path() {
    assert!(compute_worktrees_dir("/").is_none());
}

#[test]
fn compute_worktrees_dir_follows_path_rules() {
    let cases: Vec<(&str, Option<&str>)> = vec![
        ("", None),
        (".", None),
        ("..", None),
        ("/..", None),
        ("/a/..", None),
        ("//", None),
        ("/.", None),
        ("./", None),
        ("/repo", Some("//repo-worktrees")),
        ("repo", Some("/repo-worktrees")),
        ("./repo", Some("./repo-worktrees")),
        ("a/b", Some("a/b-worktrees")),
        ("/a/b/", Some("/a/b-worktrees")),
        ("/a//b", Some("/a/b-worktrees")),
        ("/a/./b/.", Some("/a/b-worktrees")),
        ("/a/b/./", Some("/a/b-worktrees")),
        ("/a/../b", Some("/a/../b-worktrees")),
        ("/a/.hidden", Some("/a/.hidden-worktrees")),
        ("/a/b..", Some("/a/b..-worktrees")),
        ("/home/user/my repo", Some("/home/user/my repo-worktrees")),
    ];
    for (path, expected) in cases {
        let by_std = std::path::Path::new(path).file_name().and_then(|name| {
            let parent = std::path::Path::new(path).parent()?;
            Some(format!("{}/{}-worktrees", parent.to_str()?, name.to_str()?))
        });
        assert_eq!(compute_worktrees_dir(path).as_deref(), expected, "path {:?}", path);
        assert_eq!(by_std.as_deref(), expected, "path {:?}", path);
    }
}

#[test]
fn parse_worktree_line_splits_on_any_white_space() {
    let wt = parse_worktree_line("\t/p\u{3000}h1\u{a0}[[b]]]\r").unwrap();
    assert_eq!(wt.path, "/p");
    assert_eq!(wt.hash, "h1");
    assert_eq!(wt.branch, "b");
    let detached = parse_worktree_line("/p 1234567 (detached HEAD)").unwrap();
    assert_eq!(detached.branch, "(detached");
    assert!(parse_worktree_line("  a b  ").is_none());
}

#[test]
fn worktree_list_reads_every_line_that_holds_a_record() {
    let text = "/home/u/repo  abc1234 [main]\r\n\n/home/u/repo-worktrees/x  def5678 [feat/x]\nbroken line\n";
    let list = worktree_list(Some(text));
    assert_eq!(list.len(), 2);
    assert_eq!(list[0].path, "/home/u/repo");
    assert_eq!(list[0].branch, "main");
    assert_eq!(list[1].path, "/home/u/repo-worktrees/x");
    assert_eq!(list[1].hash, "def5678");
    assert_eq!(list[1].branch, "feat/x");
    assert!(worktree_list(None).is_empty());
    assert!(worktree_list(Some("")).is_empty());
    let by_std: Vec<String> = text
        .lines()
        .filter_map(parse_worktree_line)
        .map(|wt| wt.path)
        .collect();
    assert_eq!(by_std, vec!["/home/u/repo", "/home/u/repo-worktrees/x"]);
}

#[test]
fn main_worktree_is_the_first_record() {
    let list = worktree_list(Some("/r abc [main]\n/r-worktrees/x def [x]\n"));
    assert_eq!(main_worktree(&list).as_deref(), Some("/r"));
    assert_eq!(worktrees_dir(&list).as_deref(), Some("//r-worktrees"));
    let none = worktree_list(None);
    assert_eq!(main_worktree(&none), None);
    assert_eq!(worktrees_dir(&none), None);
}

#[test]
fn a_worktree_is_added_on_a_new_branch_or_else_on_an_existing_one() {
    let new = Request::AddWorktree { path: "/w/x".into(), branch: "x".into(), new_branch: true };
    let existing =
        Request::AddWorktree { path: "/w/x".into(), branch: "x".into(), new_branch: false };
    assert_eq!(worktree_add("/w/x", "x", None), AddStep::Try(new.clone()));
    assert_eq!(
        worktree_add("/w/x", "x", Some((AddAttempt::NewBranch, true))),
        AddStep::Added(AddAttempt::NewBranch)
    );
    assert_eq!(
        worktree_add("/w/x", "x", Some((AddAttempt::NewBranch, false))),
        AddStep::Try(existing.clone())
    );
    assert_eq!(
        worktree_add("/w/x", "x", Some((AddAttempt::ExistingBranch, true))),
        AddStep::Added(AddAttempt::ExistingBranch)
    );
    assert_eq!(
        worktree_add("/w/x", "x", Some((AddAttempt::ExistingBranch, false))),
        AddStep::Failed
    );
    let args = |r: &Request| git_args(r).unwrap().join(" ");
    assert_eq!(args(&new), "worktree add -b x /w/x");
    assert_eq!(args(&existing), "worktree add /w/x x");
}

#[test]
fn requests_to_the_tool_are_what_their_names_say() {
    let args = |r: Request| git_args(&r).unwrap().join(" ");
    assert_eq!(is_git_repo(), Request::IsRepo);
    assert_eq!(args(is_git_repo()), "rev-parse --is-inside-work-tree");
    assert_eq!(args(worktree_remove("/w/x")), "worktree remove /w/x");
    assert_eq!(args(worktree_force_remove("/w/x")), "worktree remove --force /w/x");
    assert_eq!(args(branch_delete("feat/x")), "branch -d feat/x");
    assert_eq!(args(branch_force_delete("feat/x")), "branch -D feat/x");
}
