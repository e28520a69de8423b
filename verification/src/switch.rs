//! The workflow that switches to another worktree: choose one and leave its
//! path where the invoking shell looks for it.

use crate::flow::{
    fail_with, failure, info, info_text, just, push_act, push_say, say_then, success, success_text,
    Act, ActView, App, Reply, ReplyView, Request, RequestView, Step, StepView,
};
use crate::git::{
    is_git_repo, listed, record_views, worktree_list, Worktree, WorktreeView,
};
use crate::i18n::Messages;
use crate::menu::{MenuSpec, MenuSpecView};
use crate::remove::label;
use crate::text::{begins_with, replace_first, replaced_first, same, starts_with, views};
use vstd::prelude::*;
use vstd::string::*;

verus! {

/// The file through which the chosen path reaches the invoking shell.
pub const SWITCH_TARGET_FILE: &'static str = "/tmp/.shuu_cd_target";

/// Whether the working directory `here` is the worktree `w` or lies in it:
/// it is the worktree's path, or begins with that path and a slash. A path
/// that only begins with the same characters, as `/r-worktrees/x` begins
/// with `/r`, is another directory.
pub open spec fn is_current(w: WorktreeView, here: Seq<char>) -> bool {
    here == w.path || begins_with(here, w.path + "/"@)
}

/// The working directory matches a worktree only at a boundary between
/// components: where it is not the worktree's path itself, it goes on with
/// a slash right behind that path.
pub proof fn lemma_current_needs_a_boundary(w: WorktreeView, here: Seq<char>)
    ensures
        is_current(w, here) <==> here == w.path || (here.len() > w.path.len() && here.take(
            w.path.len() as int,
        ) == w.path && here[w.path.len() as int] == '/'),
        is_current(w, w.path),
{
    reveal_strlit("/");
    let with_slash = w.path + "/"@;
    let n = w.path.len() as int;
    if begins_with(here, with_slash) {
        assert(here.take(n + 1) == with_slash);
        assert(here[n] == with_slash[n]);
        assert(here.take(n) == here.take(n + 1).take(n));
        assert(with_slash.take(n) == w.path);
    }
    if here.len() > n && here.take(n) == w.path && here[n] == '/' {
        assert(here.take(n + 1) == with_slash);
    }
}

/// The menu label of a worktree, marked if the working directory `here`
/// is that worktree or lies in it.
pub open spec fn switch_label(w: WorktreeView, here: Seq<char>) -> Seq<char> {
    if is_current(w, here) {
        label(w) + " (current)"@
    } else {
        label(w)
    }
}

/// The menu labels of all worktrees.
pub open spec fn switch_labels(list: Seq<WorktreeView>, here: Seq<char>) -> Seq<Seq<char>> {
    list.map_values(|w: WorktreeView| switch_label(w, here))
}

/// Where the switch workflow stands.
#[derive(Clone, Debug, PartialEq, Eq)]
pub enum SwitchState {
    Start,
    /// Asked whether this is a repository.
    CheckingRepo,
    /// Asked for the worktrees.
    Listing,
    /// Asked for the working directory.
    Locating(Vec<Worktree>),
    /// Offered the worktrees.
    Selecting(Vec<Worktree>),
    Finished,
}

/// A `SwitchState` as plain text.
pub enum SwitchView {
    Start,
    CheckingRepo,
    Listing,
    Locating(Seq<WorktreeView>),
    Selecting(Seq<WorktreeView>),
    Finished,
}

impl View for SwitchState {
    type V = SwitchView;

    open spec fn view(&self) -> SwitchView {
        match self {
            SwitchState::Start => SwitchView::Start,
            SwitchState::CheckingRepo => SwitchView::CheckingRepo,
            SwitchState::Listing => SwitchView::Listing,
            SwitchState::Locating(list) => SwitchView::Locating(record_views(list@)),
            SwitchState::Selecting(list) => SwitchView::Selecting(record_views(list@)),
            SwitchState::Finished => SwitchView::Finished,
        }
    }
}

/// The working directory, given as it was found or missing.
pub open spec fn here_of(output: Option<Seq<char>>) -> Seq<char> {
    match output {
        Some(dir) => dir,
        None => Seq::empty(),
    }
}

/// The next state and step of the switch workflow.
///
/// With one worktree or none there is nothing to switch to, and a
/// cancelled menu ends the workflow quietly. A reply that the state does
/// not expect ends it in failure.
pub open spec fn switch_step(m: Messages, state: SwitchView, reply: ReplyView) -> (
    SwitchView,
    StepView,
) {
    match (state, reply) {
        (SwitchView::Start, ReplyView::Start) => (
            SwitchView::CheckingRepo,
            just(RequestView::IsRepo),
        ),
        (SwitchView::CheckingRepo, ReplyView::Status(is_repo)) => if is_repo {
            (SwitchView::Listing, just(RequestView::ListWorktrees))
        } else {
            (SwitchView::Finished, fail_with(m.not_git_repo@))
        },
        (SwitchView::Listing, ReplyView::Output(output)) => if listed(output).len() <= 1 {
            (SwitchView::Finished, say_then(info_text(m.no_wt_to_switch@), RequestView::Done))
        } else {
            (SwitchView::Locating(listed(output)), just(RequestView::CurrentDir))
        },
        (SwitchView::Locating(list), ReplyView::Output(output)) => (
            SwitchView::Selecting(list),
            just(
                RequestView::Select(
                    MenuSpecView {
                        title: m.select_wt_switch@,
                        items: switch_labels(list, here_of(output)),
                        hint: m.menu_hint@,
                    },
                ),
            ),
        ),
        (SwitchView::Selecting(list), ReplyView::Selected(choice)) => match choice {
            None => (SwitchView::Finished, just(RequestView::Done)),
            Some(index) => if index < list.len() {
                (
                    SwitchView::Finished,
                    StepView {
                        acts: seq![
                            ActView::Say(
                                success_text(
                                    replaced_first(
                                        m.switching_to@,
                                        "%s"@,
                                        list[index as int].branch,
                                    ),
                                ),
                            ),
                            ActView::WriteFile {
                                path: SWITCH_TARGET_FILE@,
                                content: list[index as int].path,
                            },
                        ],
                        request: RequestView::Done,
                    },
                )
            } else {
                (SwitchView::Finished, failure())
            },
        },
        _ => (SwitchView::Finished, failure()),
    }
}

/// The path left for the shell is that of a listed worktree, the one that
/// was chosen; nothing else is ever written, and nothing is asked of the
/// version-control tool but whether this is a repository and what its
/// worktrees are.
pub proof fn lemma_switch_writes_the_chosen_path(m: Messages, state: SwitchView, reply: ReplyView)
    ensures
        forall|i: int|
            0 <= i < switch_step(m, state, reply).1.acts.len() ==> match #[trigger] switch_step(
                m,
                state,
                reply,
            ).1.acts[i] {
                ActView::Say(_) => true,
                ActView::WriteFile { path, content } => {
                    &&& path == SWITCH_TARGET_FILE@
                    &&& state matches SwitchView::Selecting(list)
                    &&& reply matches ReplyView::Selected(Some(index))
                    &&& index < list.len()
                    &&& content == list[index as int].path
                },
                _ => false,
            },
        match switch_step(m, state, reply).1.request {
            RequestView::AddWorktree { .. } => false,
            RequestView::RemoveWorktree { .. } => false,
            RequestView::DeleteBranch { .. } => false,
            _ => true,
        },
{
}

/// Whether the working directory `here` is the worktree `w` or lies in it.
pub fn current_in(w: &Worktree, here: &str) -> (current: bool)
    ensures
        current == is_current(w@, here@),
{
    if same(here, w.path.as_str()) {
        return true;
    }
    let mut inside = w.path.clone();
    inside.append("/");
    starts_with(here, inside.as_str())
}

/// The menu labels of all worktrees.
pub fn switch_labels_of(list: &Vec<Worktree>, here: &str) -> (items: Vec<String>)
    ensures
        views(items@) == switch_labels(record_views(list@), here@),
{
    let mut items: Vec<String> = Vec::new();
    let mut i: usize = 0;
    while i < list.len()
        invariant
            i <= list.len(),
            items.len() == i,
            forall|j: int| 0 <= j < i ==> items@[j]@ == switch_label(list@[j]@, here@),
        decreases list.len() - i,
    {
        let mut item = list[i].branch.clone();
        item.append("  ");
        item.append(list[i].path.as_str());
        if current_in(&list[i], here) {
            item.append(" (current)");
        }
        items.push(item);
        i += 1;
    }
    items
}

/// Takes the switch workflow one step on: from `state` and the answer to
/// the request before, to the next state and what to do now. It begins
/// in `SwitchState::Start` with `Reply::Start`.
pub fn cmd_switch(app: &App, state: SwitchState, reply: Reply) -> (next: (SwitchState, Step))
    ensures
        (next.0@, next.1@) == switch_step(app.messages, state@, reply@),
{
    let m = &app.messages;
    let ghost expected = switch_step(app.messages, state@, reply@);
    let next = match (state, reply) {
        (SwitchState::Start, Reply::Start) => (
            SwitchState::CheckingRepo,
            Step::just(is_git_repo()),
        ),
        (SwitchState::CheckingRepo, Reply::Status(is_repo)) => {
            if is_repo {
                (SwitchState::Listing, Step::just(Request::ListWorktrees))
            } else {
                (SwitchState::Finished, Step::fail_with(m.not_git_repo))
            }
        },
        (SwitchState::Listing, Reply::Output(output)) => {
            let list = match &output {
                Some(text) => worktree_list(Some(text.as_str())),
                None => worktree_list(None),
            };
            if list.len() <= 1 {
                (SwitchState::Finished, Step::say_then(info(m.no_wt_to_switch), Request::Done))
            } else {
                (SwitchState::Locating(list), Step::just(Request::CurrentDir))
            }
        },
        (SwitchState::Locating(list), Reply::Output(output)) => {
            let items = match &output {
                Some(dir) => switch_labels_of(&list, dir.as_str()),
                None => {
                    let here = String::new();
                    switch_labels_of(&list, here.as_str())
                },
            };
            let menu = MenuSpec {
                title: String::from_str(m.select_wt_switch),
                items,
                hint: String::from_str(m.menu_hint),
            };
            (SwitchState::Selecting(list), Step::just(Request::Select(menu)))
        },
        (SwitchState::Selecting(list), Reply::Selected(choice)) => {
            match choice {
                None => (SwitchState::Finished, Step::just(Request::Done)),
                Some(index) => {
                    if index < list.len() {
                        let mut acts: Vec<Act> = Vec::new();
                        let branch = list[index].branch.as_str();
                        let report = replace_first(m.switching_to, "%s", branch);
                        push_say(&mut acts, success(report.as_str()));
                        push_act(
                            &mut acts,
                            Act::WriteFile {
                                path: String::from_str(SWITCH_TARGET_FILE),
                                content: list[index].path.clone(),
                            },
                        );
                        (SwitchState::Finished, Step { acts, request: Request::Done })
                    } else {
                        (SwitchState::Finished, Step::failure())
                    }
                },
            }
        },
        _ => (SwitchState::Finished, Step::failure()),
    };
    assert(next.1@.acts == expected.1.acts);
    next
}

} // verus!
