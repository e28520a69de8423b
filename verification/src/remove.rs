//! The workflow that removes a worktree: choose one, confirm, remove it,
//! by force if need be and the user agrees, then offer to delete its
//! branch in the same way.

use crate::flow::{
    act_views, colon, confirm, err, fail_with, failure, info, info_text, is_yes, just, prompt,
    prompt_line, push_say, say_then, success, success_text, ActView, App, BOLD, NC, RED, Reply,
    ReplyView, Request, RequestView, Step, StepView,
};
use crate::git::{
    branch_delete, branch_force_delete, is_git_repo, listed, main_path, record_views,
    worktree_force_remove, worktree_list, worktree_remove, Worktree, WorktreeView,
};
use crate::i18n::Messages;
use crate::menu::{MenuSpec, MenuSpecView};
use crate::text::{replace_first, replaced_first, views};
use vstd::prelude::*;
use vstd::string::*;

verus! {

/// Those of `list` that are not at `main`, in order.
pub open spec fn others(list: Seq<WorktreeView>, main: Seq<char>) -> Seq<WorktreeView>
    decreases list.len(),
{
    if list.len() == 0 {
        Seq::empty()
    } else if list.last().path == main {
        others(list.drop_last(), main)
    } else {
        others(list.drop_last(), main).push(list.last())
    }
}

/// The worktrees that may be removed: all but the main one.
pub open spec fn removable(list: Seq<WorktreeView>) -> Seq<WorktreeView> {
    match main_path(list) {
        Some(main) => others(list, main),
        None => Seq::empty(),
    }
}

/// What `others` keeps is in the list and not at `main`.
pub proof fn lemma_others(list: Seq<WorktreeView>, main: Seq<char>)
    ensures
        others(list, main).len() <= list.len(),
        forall|i: int|
            0 <= i < others(list, main).len() ==> (#[trigger] others(list, main)[i]).path != main
                && list.contains(others(list, main)[i]),
    decreases list.len(),
{
    if list.len() > 0 {
        lemma_others(list.drop_last(), main);
    }
}

/// The main worktree is never offered for removal, and what is offered is
/// listed.
pub proof fn lemma_main_is_never_offered(list: Seq<WorktreeView>)
    ensures
        forall|i: int|
            0 <= i < removable(list).len() ==> list.contains(#[trigger] removable(list)[i])
                && Some(removable(list)[i].path) != main_path(list),
        removable(list).len() < list.len() || list.len() == 0,
{
    if list.len() > 0 {
        lemma_others(list, list[0].path);
        lemma_others_skips(list, list[0].path, 0);
    }
}

/// Where a record at `main` is listed, `others` is shorter than the list.
proof fn lemma_others_skips(list: Seq<WorktreeView>, main: Seq<char>, at: int)
    requires
        0 <= at < list.len(),
        list[at].path == main,
    ensures
        others(list, main).len() < list.len(),
    decreases list.len(),
{
    lemma_others(list.drop_last(), main);
    if at < list.len() - 1 {
        lemma_others_skips(list.drop_last(), main, at);
    }
}

/// Where no other worktree is at the main worktree's path, what may be
/// removed is the list without its first record.
pub proof fn lemma_removable_is_the_rest(list: Seq<WorktreeView>)
    requires
        list.len() > 0,
        forall|j: int| 0 < j < list.len() ==> (#[trigger] list[j]).path != list[0].path,
    ensures
        removable(list) == list.skip(1),
    decreases list.len(),
{
    let main = list[0].path;
    if list.len() == 1 {
        assert(others(list.drop_last(), main) == Seq::<WorktreeView>::empty());
    } else {
        lemma_removable_is_the_rest(list.drop_last());
    }
}

/// The menu label of a worktree: its branch, two spaces, its path.
pub open spec fn label(w: WorktreeView) -> Seq<char> {
    w.branch + "  "@ + w.path
}

/// The menu labels of a list of worktrees.
pub open spec fn labels(list: Seq<WorktreeView>) -> Seq<Seq<char>> {
    list.map_values(|w: WorktreeView| label(w))
}

/// Where the remove workflow stands.
#[derive(Clone, Debug, PartialEq, Eq)]
pub enum RemoveState {
    Start,
    /// Asked whether this is a repository.
    CheckingRepo,
    /// Asked for the worktrees.
    Listing,
    /// Offered these worktrees for removal.
    Selecting(Vec<Worktree>),
    /// Asked whether to remove this one.
    Confirming(Worktree),
    /// Removing it.
    Removing(Worktree),
    /// Removal failed; asked whether to force it.
    ConfirmingForce(Worktree),
    /// Removing it by force.
    ForceRemoving(Worktree),
    /// It is removed; asked whether to delete its branch too.
    ConfirmingBranch(Worktree),
    /// Deleting the branch.
    DeletingBranch(Worktree),
    /// Deleting the branch failed; asked whether to force it.
    ConfirmingForceBranch(Worktree),
    /// Deleting the branch by force.
    ForceDeletingBranch(Worktree),
    Finished,
}

/// A `RemoveState` as plain text.
pub enum RemoveView {
    Start,
    CheckingRepo,
    Listing,
    Selecting(Seq<WorktreeView>),
    Confirming(WorktreeView),
    Removing(WorktreeView),
    ConfirmingForce(WorktreeView),
    ForceRemoving(WorktreeView),
    ConfirmingBranch(WorktreeView),
    DeletingBranch(WorktreeView),
    ConfirmingForceBranch(WorktreeView),
    ForceDeletingBranch(WorktreeView),
    Finished,
}

impl View for RemoveState {
    type V = RemoveView;

    open spec fn view(&self) -> RemoveView {
        match self {
            RemoveState::Start => RemoveView::Start,
            RemoveState::CheckingRepo => RemoveView::CheckingRepo,
            RemoveState::Listing => RemoveView::Listing,
            RemoveState::Selecting(list) => RemoveView::Selecting(record_views(list@)),
            RemoveState::Confirming(t) => RemoveView::Confirming(t@),
            RemoveState::Removing(t) => RemoveView::Removing(t@),
            RemoveState::ConfirmingForce(t) => RemoveView::ConfirmingForce(t@),
            RemoveState::ForceRemoving(t) => RemoveView::ForceRemoving(t@),
            RemoveState::ConfirmingBranch(t) => RemoveView::ConfirmingBranch(t@),
            RemoveState::DeletingBranch(t) => RemoveView::DeletingBranch(t@),
            RemoveState::ConfirmingForceBranch(t) => RemoveView::ConfirmingForceBranch(t@),
            RemoveState::ForceDeletingBranch(t) => RemoveView::ForceDeletingBranch(t@),
            RemoveState::Finished => RemoveView::Finished,
        }
    }
}

/// The end of the workflow with nothing more to say.
pub open spec fn finished() -> (RemoveView, StepView) {
    (RemoveView::Finished, just(RequestView::Done))
}

/// The end of the workflow in failure.
pub open spec fn failed(step: StepView) -> (RemoveView, StepView) {
    (RemoveView::Finished, step)
}

/// With the worktrees listed: offer those that may be removed, or say that
/// there are none.
pub open spec fn offer(m: Messages, candidates: Seq<WorktreeView>) -> (RemoveView, StepView) {
    if candidates.len() == 0 {
        (RemoveView::Finished, say_then(info_text(m.no_wt_to_remove@), RequestView::Done))
    } else {
        (
            RemoveView::Selecting(candidates),
            just(
                RequestView::Select(
                    MenuSpecView {
                        title: m.select_wt_remove@,
                        items: labels(candidates),
                        hint: m.menu_hint@,
                    },
                ),
            ),
        )
    }
}

/// The question that asks for a yes or a no after `text`.
pub open spec fn yes_no(text: Seq<char>) -> Seq<char> {
    prompt_line(text + " [y/N]:"@)
}

/// With a worktree chosen: show it and ask whether to remove it.
pub open spec fn ask_removal(m: Messages, target: WorktreeView) -> (RemoveView, StepView) {
    (
        RemoveView::Confirming(target),
        StepView {
            acts: seq![
                ActView::Say("\n"@ + RED@ + BOLD@ + m.confirm_delete@ + NC@),
                ActView::Say("  "@ + m.path@ + " "@ + target.path),
                ActView::Say("  "@ + m.branch@ + " "@ + target.branch),
            ],
            request: RequestView::ReadLine(prompt_line("[y/N]:"@)),
        },
    )
}

/// With the worktree removed: report it with `report` and ask whether to
/// delete its branch too.
pub open spec fn ask_branch(m: Messages, target: WorktreeView, report: Seq<char>) -> (
    RemoveView,
    StepView,
) {
    (
        RemoveView::ConfirmingBranch(target),
        say_then(
            success_text(report),
            RequestView::ReadLine(
                yes_no(replaced_first(m.delete_branch@, "%s"@, target.branch)),
            ),
        ),
    )
}

/// The next state and step of the remove workflow.
///
/// A cancelled menu and a no to the first question end it quietly; a no to
/// forcing the removal ends it in failure. A reply that the state does not
/// expect ends it in failure.
pub open spec fn remove_step(m: Messages, state: RemoveView, reply: ReplyView) -> (
    RemoveView,
    StepView,
) {
    match (state, reply) {
        (RemoveView::Start, ReplyView::Start) => (
            RemoveView::CheckingRepo,
            just(RequestView::IsRepo),
        ),
        (RemoveView::CheckingRepo, ReplyView::Status(is_repo)) => if is_repo {
            (RemoveView::Listing, just(RequestView::ListWorktrees))
        } else {
            failed(fail_with(m.not_git_repo@))
        },
        (RemoveView::Listing, ReplyView::Output(output)) => offer(m, removable(listed(output))),
        (RemoveView::Selecting(candidates), ReplyView::Selected(choice)) => match choice {
            None => finished(),
            Some(index) => if index < candidates.len() {
                ask_removal(m, candidates[index as int])
            } else {
                failed(failure())
            },
        },
        (RemoveView::Confirming(target), ReplyView::Line(line)) => if is_yes(line) {
            (
                RemoveView::Removing(target),
                just(RequestView::RemoveWorktree { path: target.path, force: false }),
            )
        } else {
            (RemoveView::Finished, say_then(info_text(m.cancelled@), RequestView::Done))
        },
        (RemoveView::Removing(target), ReplyView::Status(removed)) => if removed {
            ask_branch(m, target, m.wt_removed@ + ": "@ + target.path)
        } else {
            (
                RemoveView::ConfirmingForce(target),
                say_then(
                    crate::flow::err_text(m.wt_remove_failed@),
                    RequestView::ReadLine(yes_no(m.force_remove@)),
                ),
            )
        },
        (RemoveView::ConfirmingForce(target), ReplyView::Line(line)) => if is_yes(line) {
            (
                RemoveView::ForceRemoving(target),
                just(RequestView::RemoveWorktree { path: target.path, force: true }),
            )
        } else {
            failed(failure())
        },
        (RemoveView::ForceRemoving(target), ReplyView::Status(removed)) => if removed {
            ask_branch(m, target, m.wt_force_removed@)
        } else {
            failed(fail_with(m.force_remove_failed@))
        },
        (RemoveView::ConfirmingBranch(target), ReplyView::Line(line)) => if is_yes(line) {
            (
                RemoveView::DeletingBranch(target),
                just(RequestView::DeleteBranch { name: target.branch, force: false }),
            )
        } else {
            finished()
        },
        (RemoveView::DeletingBranch(target), ReplyView::Status(deleted)) => if deleted {
            (
                RemoveView::Finished,
                say_then(
                    success_text(m.branch_deleted@ + ": "@ + target.branch),
                    RequestView::Done,
                ),
            )
        } else {
            (
                RemoveView::ConfirmingForceBranch(target),
                just(RequestView::ReadLine(yes_no(m.force_delete_branch@))),
            )
        },
        (RemoveView::ConfirmingForceBranch(target), ReplyView::Line(line)) => if is_yes(line) {
            (
                RemoveView::ForceDeletingBranch(target),
                just(RequestView::DeleteBranch { name: target.branch, force: true }),
            )
        } else {
            finished()
        },
        (RemoveView::ForceDeletingBranch(target), ReplyView::Status(_)) => (
            RemoveView::Finished,
            say_then(
                success_text(m.branch_force_deleted@ + ": "@ + target.branch),
                RequestView::Done,
            ),
        ),
        _ => failed(failure()),
    }
}

/// The worktree that the workflow is about, once one is chosen.
pub open spec fn target_of(state: RemoveView) -> Option<WorktreeView> {
    match state {
        RemoveView::Confirming(t) => Some(t),
        RemoveView::Removing(t) => Some(t),
        RemoveView::ConfirmingForce(t) => Some(t),
        RemoveView::ForceRemoving(t) => Some(t),
        RemoveView::ConfirmingBranch(t) => Some(t),
        RemoveView::DeletingBranch(t) => Some(t),
        RemoveView::ConfirmingForceBranch(t) => Some(t),
        RemoveView::ForceDeletingBranch(t) => Some(t),
        _ => None,
    }
}

/// Nothing is removed or deleted without a yes. A step asks for a removal
/// only on a yes to the question about that worktree, and by force only on
/// a yes to the question that follows a failed removal; it asks for the
/// deletion of a branch only on a yes to the question about that branch,
/// and by force only after the deletion failed. It never asks for a
/// worktree to be added.
pub proof fn lemma_removal_needs_consent(m: Messages, state: RemoveView, reply: ReplyView)
    ensures
        match remove_step(m, state, reply).1.request {
            RequestView::RemoveWorktree { path, force } => {
                &&& reply matches ReplyView::Line(line) && is_yes(line)
                &&& target_of(state) matches Some(t) && t.path == path
                &&& if force {
                    state is ConfirmingForce
                } else {
                    state is Confirming
                }
                &&& target_of(remove_step(m, state, reply).0) == target_of(state)
            },
            RequestView::DeleteBranch { name, force } => {
                &&& reply matches ReplyView::Line(line) && is_yes(line)
                &&& target_of(state) matches Some(t) && t.branch == name
                &&& if force {
                    state is ConfirmingForceBranch
                } else {
                    state is ConfirmingBranch
                }
            },
            RequestView::AddWorktree { .. } => false,
            _ => true,
        },
{
}

/// The worktree that the workflow is about is one that was offered: it is
/// chosen from the candidates, which are the removable worktrees of the
/// listing, and stays the same from then on. The questions about force
/// are asked only after a failure, and the branch is asked about only
/// after the worktree is gone.
pub proof fn lemma_target_is_a_candidate(m: Messages, state: RemoveView, reply: ReplyView)
    ensures
        remove_step(m, state, reply).0 matches RemoveView::Selecting(candidates) ==> reply matches
            ReplyView::Output(output) && candidates == removable(listed(output)),
        target_of(remove_step(m, state, reply).0) matches Some(t) ==> target_of(state) == Some(t)
            || (state matches RemoveView::Selecting(candidates) && candidates.contains(t)),
        remove_step(m, state, reply).0 is ConfirmingForce ==> state is Removing && reply
            == ReplyView::Status(false),
        remove_step(m, state, reply).0 is ConfirmingForceBranch ==> state is DeletingBranch
            && reply == ReplyView::Status(false),
        remove_step(m, state, reply).0 is ConfirmingBranch ==> (state is Removing || state
            is ForceRemoving) && reply == ReplyView::Status(true),
{
}

/// A removal that fails and then succeeds by force is reported as forced,
/// and the question about the branch follows all the same.
pub proof fn lemma_forced_removal_still_offers_branch(
    m: Messages,
    target: WorktreeView,
    answer: Seq<char>,
)
    requires
        is_yes(answer),
    ensures
        ({
            let failed = remove_step(m, RemoveView::Removing(target), ReplyView::Status(false));
            let agreed = remove_step(m, failed.0, ReplyView::Line(answer));
            let forced = remove_step(m, agreed.0, ReplyView::Status(true));
            &&& failed.0 == RemoveView::ConfirmingForce(target)
            &&& failed.1 == say_then(
                crate::flow::err_text(m.wt_remove_failed@),
                RequestView::ReadLine(yes_no(m.force_remove@)),
            )
            &&& agreed.1 == just(RequestView::RemoveWorktree { path: target.path, force: true })
            &&& forced.0 == RemoveView::ConfirmingBranch(target)
            &&& forced.1 == say_then(
                success_text(m.wt_force_removed@),
                RequestView::ReadLine(
                    yes_no(replaced_first(m.delete_branch@, "%s"@, target.branch)),
                ),
            )
        }),
{
}

/// Where a run of the remove workflow stands after a sequence of replies,
/// the first of which begins it.
pub open spec fn remove_run(m: Messages, replies: Seq<ReplyView>) -> (RemoveView, StepView)
    decreases replies.len(),
{
    if replies.len() == 0 {
        (RemoveView::Start, just(RequestView::Done))
    } else {
        remove_step(m, remove_run(m, replies.drop_last()).0, replies.last())
    }
}

/// Whether `t` was a removable worktree of a listing among `replies`.
pub open spec fn was_listed_removable(replies: Seq<ReplyView>, t: WorktreeView) -> bool {
    exists|k: int|
        0 <= k < replies.len() && (#[trigger] replies[k] matches ReplyView::Output(output)
            && removable(listed(output)).contains(t))
}

/// In no run is the main worktree removed. Whatever the replies, the
/// worktree that a run is about, and so the path of every removal that it
/// asks for, is a removable worktree of a listing that the run was given:
/// one that is listed, and not at the main worktree's path.
pub proof fn lemma_run_removes_only_what_was_offered(m: Messages, replies: Seq<ReplyView>)
    ensures
        target_of(remove_run(m, replies).0) matches Some(t) ==> was_listed_removable(replies, t),
        remove_run(m, replies).0 matches RemoveView::Selecting(candidates) ==> forall|i: int|
            0 <= i < candidates.len() ==> was_listed_removable(replies, #[trigger] candidates[i]),
        remove_run(m, replies).1.request matches RequestView::RemoveWorktree { path, force }
            ==> exists|t: WorktreeView| was_listed_removable(replies, t) && t.path == path,
    decreases replies.len(),
{
    if replies.len() > 0 {
        let earlier = replies.drop_last();
        let before = remove_run(m, earlier).0;
        let after = remove_run(m, replies);
        lemma_run_removes_only_what_was_offered(m, earlier);
        lemma_target_is_a_candidate(m, before, replies.last());
        lemma_removal_needs_consent(m, before, replies.last());
        if let RequestView::RemoveWorktree { path, force } = after.1.request {
            let t = target_of(before)->0;
            assert(was_listed_removable(replies, t) && t.path == path);
        }
    }
}

/// Once finished, the workflow asks for nothing more.
pub proof fn lemma_finished_is_final(m: Messages, reply: ReplyView)
    ensures
        remove_step(m, RemoveView::Finished, reply) == failed(failure()),
        remove_step(m, RemoveView::Finished, reply).0 is Finished,
{
}

/// The worktrees of `list` that may be removed.
pub fn removable_of(list: &Vec<Worktree>) -> (candidates: Vec<Worktree>)
    ensures
        record_views(candidates@) == removable(record_views(list@)),
{
    let mut candidates: Vec<Worktree> = Vec::new();
    if list.len() == 0 {
        return candidates;
    }
    let main = list[0].path.clone();
    let mut i: usize = 0;
    while i < list.len()
        invariant
            i <= list.len(),
            list.len() > 0,
            main@ == list@[0].path@,
            record_views(candidates@) == others(record_views(list@).take(i as int), main@),
        decreases list.len() - i,
    {
        proof {
            let upto = record_views(list@).take(i + 1);
            assert(upto.drop_last() == record_views(list@).take(i as int));
        }
        if !crate::text::same(list[i].path.as_str(), main.as_str()) {
            candidates.push(list[i].duplicate());
        }
        i += 1;
    }
    assert(record_views(list@).take(list.len() as int) == record_views(list@));
    candidates
}

/// The menu labels of a list of worktrees.
pub fn labels_of(list: &Vec<Worktree>) -> (items: Vec<String>)
    ensures
        views(items@) == labels(record_views(list@)),
{
    let mut items: Vec<String> = Vec::new();
    let mut i: usize = 0;
    while i < list.len()
        invariant
            i <= list.len(),
            items.len() == i,
            forall|j: int| 0 <= j < i ==> items@[j]@ == label(list@[j]@),
        decreases list.len() - i,
    {
        let mut item = list[i].branch.clone();
        item.append("  ");
        item.append(list[i].path.as_str());
        items.push(item);
        i += 1;
    }
    items
}

/// The question that asks for a yes or a no after `text`.
pub fn yes_no_prompt(text: &str) -> (line: String)
    ensures
        line@ == yes_no(text@),
{
    let mut question = String::from_str(text);
    question.append(" [y/N]:");
    prompt(question.as_str())
}

fn offer_candidates(m: &Messages, candidates: Vec<Worktree>) -> (next: (RemoveState, Step))
    ensures
        (next.0@, next.1@) == offer(*m, record_views(candidates@)),
{
    if candidates.len() == 0 {
        (RemoveState::Finished, Step::say_then(info(m.no_wt_to_remove), Request::Done))
    } else {
        let menu = MenuSpec {
            title: String::from_str(m.select_wt_remove),
            items: labels_of(&candidates),
            hint: String::from_str(m.menu_hint),
        };
        (RemoveState::Selecting(candidates), Step::just(Request::Select(menu)))
    }
}

fn ask_whether_to_remove(m: &Messages, target: Worktree) -> (next: (RemoveState, Step))
    ensures
        (next.0@, next.1@) == ask_removal(*m, target@),
{
    let mut acts: Vec<crate::flow::Act> = Vec::new();
    let mut head = String::from_str("\n");
    head.append(RED);
    head.append(BOLD);
    head.append(m.confirm_delete);
    head.append(NC);
    push_say(&mut acts, head);
    let mut path = String::from_str("  ");
    path.append(m.path);
    path.append(" ");
    path.append(target.path.as_str());
    push_say(&mut acts, path);
    let mut branch = String::from_str("  ");
    branch.append(m.branch);
    branch.append(" ");
    branch.append(target.branch.as_str());
    push_say(&mut acts, branch);
    assert(act_views(acts@) == ask_removal(*m, target@).1.acts);
    let step = Step { acts, request: Request::ReadLine(prompt("[y/N]:")) };
    (RemoveState::Confirming(target), step)
}

fn ask_whether_to_delete_branch(m: &Messages, target: Worktree, report: &str) -> (next: (
    RemoveState,
    Step,
))
    ensures
        (next.0@, next.1@) == ask_branch(*m, target@, report@),
{
    let question = replace_first(m.delete_branch, "%s", target.branch.as_str());
    let step = Step::say_then(
        success(report),
        Request::ReadLine(yes_no_prompt(question.as_str())),
    );
    (RemoveState::ConfirmingBranch(target), step)
}

/// Takes the remove workflow one step on: from `state` and the answer to
/// the request before, to the next state and what to do now. It begins
/// in `RemoveState::Start` with `Reply::Start`.
pub fn cmd_remove(app: &App, state: RemoveState, reply: Reply) -> (next: (RemoveState, Step))
    ensures
        (next.0@, next.1@) == remove_step(app.messages, state@, reply@),
{
    let m = &app.messages;
    match (state, reply) {
        (RemoveState::Start, Reply::Start) => (
            RemoveState::CheckingRepo,
            Step::just(is_git_repo()),
        ),
        (RemoveState::CheckingRepo, Reply::Status(is_repo)) => {
            if is_repo {
                (RemoveState::Listing, Step::just(Request::ListWorktrees))
            } else {
                (RemoveState::Finished, Step::fail_with(m.not_git_repo))
            }
        },
        (RemoveState::Listing, Reply::Output(output)) => {
            let list = match &output {
                Some(text) => worktree_list(Some(text.as_str())),
                None => worktree_list(None),
            };
            offer_candidates(m, removable_of(&list))
        },
        (RemoveState::Selecting(candidates), Reply::Selected(choice)) => {
            match choice {
                None => (RemoveState::Finished, Step::just(Request::Done)),
                Some(index) => {
                    if index < candidates.len() {
                        ask_whether_to_remove(m, candidates[index].duplicate())
                    } else {
                        (RemoveState::Finished, Step::failure())
                    }
                },
            }
        },
        (RemoveState::Confirming(target), Reply::Line(line)) => {
            if confirm(line.as_str()) {
                let request = worktree_remove(target.path.as_str());
                (RemoveState::Removing(target), Step::just(request))
            } else {
                (RemoveState::Finished, Step::say_then(info(m.cancelled), Request::Done))
            }
        },
        (RemoveState::Removing(target), Reply::Status(removed)) => {
            if removed {
                let report = colon(m.wt_removed, target.path.as_str());
                ask_whether_to_delete_branch(m, target, report.as_str())
            } else {
                (
                    RemoveState::ConfirmingForce(target),
                    Step::say_then(
                        err(m.wt_remove_failed),
                        Request::ReadLine(yes_no_prompt(m.force_remove)),
                    ),
                )
            }
        },
        (RemoveState::ConfirmingForce(target), Reply::Line(line)) => {
            if confirm(line.as_str()) {
                let request = worktree_force_remove(target.path.as_str());
                (RemoveState::ForceRemoving(target), Step::just(request))
            } else {
                (RemoveState::Finished, Step::failure())
            }
        },
        (RemoveState::ForceRemoving(target), Reply::Status(removed)) => {
            if removed {
                ask_whether_to_delete_branch(m, target, m.wt_force_removed)
            } else {
                (RemoveState::Finished, Step::fail_with(m.force_remove_failed))
            }
        },
        (RemoveState::ConfirmingBranch(target), Reply::Line(line)) => {
            if confirm(line.as_str()) {
                let request = branch_delete(target.branch.as_str());
                (RemoveState::DeletingBranch(target), Step::just(request))
            } else {
                (RemoveState::Finished, Step::just(Request::Done))
            }
        },
        (RemoveState::DeletingBranch(target), Reply::Status(deleted)) => {
            if deleted {
                let report = colon(m.branch_deleted, target.branch.as_str());
                (
                    RemoveState::Finished,
                    Step::say_then(success(report.as_str()), Request::Done),
                )
            } else {
                (
                    RemoveState::ConfirmingForceBranch(target),
                    Step::just(Request::ReadLine(yes_no_prompt(m.force_delete_branch))),
                )
            }
        },
        (RemoveState::ConfirmingForceBranch(target), Reply::Line(line)) => {
            if confirm(line.as_str()) {
                let request = branch_force_delete(target.branch.as_str());
                (RemoveState::ForceDeletingBranch(target), Step::just(request))
            } else {
                (RemoveState::Finished, Step::just(Request::Done))
            }
        },
        (RemoveState::ForceDeletingBranch(target), Reply::Status(_)) => {
            let report = colon(m.branch_force_deleted, target.branch.as_str());
            (RemoveState::Finished, Step::say_then(success(report.as_str()), Request::Done))
        },
        _ => (RemoveState::Finished, Step::failure()),
    }
}

} // verus!
