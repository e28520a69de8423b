//! The workflow that creates a worktree: take a description, offer a branch
//! name for it, let the user accept it, type another or ask again, make
//! sure nothing stands where the worktree is to go, and create it.

use crate::ai::{
    build_prompt, fallback_name, generate_branch_name, lowercase, offered_name, prompt_text,
};
use crate::config::{get_model, joined, model_file, saved_model};
use crate::flow::{
    act_views, colon, err, err_text, fail_with, failure, info, info_text, just, prompt,
    prompt_line, push_act, push_say, push_text, say_then, success, success_text, Act, ActView, App,
    BOLD, CYAN, DIM, NC, Reply, ReplyView, Request, RequestView, Step, StepView,
};
use crate::git::{
    is_git_repo, listed, main_path, worktree_add, worktree_list, worktrees_dir, worktrees_dir_of,
    AddAttempt, AddStep,
};
use crate::i18n::Messages;
use crate::menu::{MenuSpec, MenuSpecView};
use crate::text::{opt_view, replace_char, replaced_char, strip, trim, views, CharClass};
use vstd::prelude::*;
use vstd::string::*;

verus! {

/// What one run of the workflow has gathered: where the worktrees are kept,
/// what is to be implemented, and the branch name on offer.
#[derive(Clone, Debug, PartialEq, Eq)]
pub struct CreateSession {
    pub dir: String,
    pub description: String,
    pub suggested: String,
}

/// A `CreateSession` as plain text.
pub struct CreateSessionView {
    pub dir: Seq<char>,
    pub description: Seq<char>,
    pub suggested: Seq<char>,
}

impl View for CreateSession {
    type V = CreateSessionView;

    open spec fn view(&self) -> CreateSessionView {
        CreateSessionView {
            dir: self.dir@,
            description: self.description@,
            suggested: self.suggested@,
        }
    }
}

/// The worktree to create: the directory that holds the worktrees, the
/// worktree's own path in it, and its branch.
#[derive(Clone, Debug, PartialEq, Eq)]
pub struct Target {
    pub dir: String,
    pub path: String,
    pub branch: String,
}

/// A `Target` as plain text.
pub struct TargetView {
    pub dir: Seq<char>,
    pub path: Seq<char>,
    pub branch: Seq<char>,
}

impl View for Target {
    type V = TargetView;

    open spec fn view(&self) -> TargetView {
        TargetView { dir: self.dir@, path: self.path@, branch: self.branch@ }
    }
}

/// Where the create workflow stands.
#[derive(Clone, Debug, PartialEq, Eq)]
pub enum CreateState {
    /// Not begun; with the description from the command line, which may be empty.
    Start(String),
    /// Asked whether this is a repository.
    CheckingRepo(String),
    /// Asked for the worktrees.
    Listing(String),
    /// Asked the user for a description.
    AskingDescription { dir: String },
    /// Asked for the saved model, to put a question to the suggester.
    LoadingModel { dir: String, description: String, feedback: String },
    /// Asked the suggester.
    Suggesting { dir: String, description: String },
    /// Offered the suggested name, manual entry and another suggestion.
    Choosing(CreateSession),
    /// Asked the user for a branch name.
    EnteringName(CreateSession),
    /// Asked the user for feedback on the suggestion.
    EnteringFeedback(CreateSession),
    /// Asked whether a directory stands where the worktree is to go.
    CheckingTarget(Target),
    /// Creating the worktree on a new branch.
    AddingNew(Target),
    /// Creating the worktree on a branch that exists.
    AddingExisting(Target),
    Finished,
}

/// A `CreateState` as plain text.
pub enum CreateView {
    Start(Seq<char>),
    CheckingRepo(Seq<char>),
    Listing(Seq<char>),
    AskingDescription { dir: Seq<char> },
    LoadingModel { dir: Seq<char>, description: Seq<char>, feedback: Seq<char> },
    Suggesting { dir: Seq<char>, description: Seq<char> },
    Choosing(CreateSessionView),
    EnteringName(CreateSessionView),
    EnteringFeedback(CreateSessionView),
    CheckingTarget(TargetView),
    AddingNew(TargetView),
    AddingExisting(TargetView),
    Finished,
}

impl View for CreateState {
    type V = CreateView;

    open spec fn view(&self) -> CreateView {
        match self {
            CreateState::Start(d) => CreateView::Start(d@),
            CreateState::CheckingRepo(d) => CreateView::CheckingRepo(d@),
            CreateState::Listing(d) => CreateView::Listing(d@),
            CreateState::AskingDescription { dir } => CreateView::AskingDescription { dir: dir@ },
            CreateState::LoadingModel { dir, description, feedback } => CreateView::LoadingModel {
                dir: dir@,
                description: description@,
                feedback: feedback@,
            },
            CreateState::Suggesting { dir, description } => CreateView::Suggesting {
                dir: dir@,
                description: description@,
            },
            CreateState::Choosing(s) => CreateView::Choosing(s@),
            CreateState::EnteringName(s) => CreateView::EnteringName(s@),
            CreateState::EnteringFeedback(s) => CreateView::EnteringFeedback(s@),
            CreateState::CheckingTarget(t) => CreateView::CheckingTarget(t@),
            CreateState::AddingNew(t) => CreateView::AddingNew(t@),
            CreateState::AddingExisting(t) => CreateView::AddingExisting(t@),
            CreateState::Finished => CreateView::Finished,
        }
    }
}

/// What is said when the directory for the worktrees cannot be told.
pub const NO_WORKTREES_DIR: &'static str = "Could not determine worktrees directory";

/// The arguments for the suggester: the model, if one is saved, and the question.
pub open spec fn suggester_args(model: Option<Seq<char>>, question: Seq<char>) -> Seq<Seq<char>> {
    match model {
        Some(model) => seq!["--model"@, model, "-p"@, question],
        None => seq!["-p"@, question],
    }
}

/// The end of the workflow in failure.
pub open spec fn failed(step: StepView) -> (CreateView, StepView) {
    (CreateView::Finished, step)
}

/// Sets out to get a suggestion: the saved model is read first.
pub open spec fn suggest(
    config_dir: Seq<char>,
    dir: Seq<char>,
    description: Seq<char>,
    feedback: Seq<char>,
) -> (CreateView, StepView) {
    (
        CreateView::LoadingModel { dir, description, feedback },
        just(RequestView::ReadFile(joined(config_dir, "model"@))),
    )
}

/// Offers the suggested name, manual entry and another suggestion.
pub open spec fn menu_of(m: Messages, session: CreateSessionView) -> StepView {
    just(
        RequestView::Select(
            MenuSpecView {
                title: m.select_branch@,
                items: seq![session.suggested, m.enter_manually@, m.regenerate@],
                hint: m.menu_hint@,
            },
        ),
    )
}

/// The same menu again, after telling the user what was wrong.
pub open spec fn offer_again(m: Messages, session: CreateSessionView, complaint: Seq<char>) -> (
    CreateView,
    StepView,
) {
    (
        CreateView::Choosing(session),
        StepView {
            acts: seq![ActView::Say(err_text(complaint))],
            request: menu_of(m, session).request,
        },
    )
}

/// Where the worktree for `branch` goes: in `dir`, under the branch's name
/// with a hyphen for each slash.
pub open spec fn target_path(dir: Seq<char>, branch: Seq<char>) -> Seq<char> {
    dir + "/"@ + replaced_char(branch, '/', '-')
}

/// With the branch name settled: ask whether its place is taken.
pub open spec fn check(dir: Seq<char>, branch: Seq<char>) -> (CreateView, StepView) {
    (
        CreateView::CheckingTarget(TargetView { dir, path: target_path(dir, branch), branch }),
        just(RequestView::IsDir(target_path(dir, branch))),
    )
}

/// With the worktree created: say so with `report`, show where it is and
/// on which branch, and how to get there.
pub open spec fn created(m: Messages, target: TargetView, report: Seq<char>) -> (
    CreateView,
    StepView,
) {
    (
        CreateView::Finished,
        StepView {
            acts: seq![
                ActView::Say(success_text(report)),
                ActView::Say(Seq::empty()),
                ActView::Say("  "@ + DIM@ + m.path@ + NC@ + " "@ + target.path),
                ActView::Say("  "@ + DIM@ + m.branch@ + NC@ + " "@ + target.branch),
                ActView::Say(Seq::empty()),
                ActView::Say(
                    CYAN@ + "\u{25b8}"@ + NC@ + " "@ + m.to_switch@ + " "@ + BOLD@
                        + "shuu switch"@ + NC@,
                ),
            ],
            request: RequestView::Done,
        },
    )
}

/// The next state and step of the create workflow.
///
/// Outside a repository, without a description, with the menu cancelled,
/// with the target's place taken, and when the worktree can be created on
/// neither a new nor an existing branch, it ends in failure. A reply that
/// the state does not expect ends it in failure too.
pub open spec fn create_step(
    m: Messages,
    config_dir: Seq<char>,
    state: CreateView,
    reply: ReplyView,
) -> (CreateView, StepView) {
    match (state, reply) {
        (CreateView::Start(description), ReplyView::Start) => (
            CreateView::CheckingRepo(description),
            just(RequestView::IsRepo),
        ),
        (CreateView::CheckingRepo(description), ReplyView::Status(is_repo)) => if is_repo {
            (CreateView::Listing(description), just(RequestView::ListWorktrees))
        } else {
            failed(fail_with(m.not_git_repo@))
        },
        (CreateView::Listing(description), ReplyView::Output(output)) => match main_path(
            listed(output),
        ) {
            Some(main) => match worktrees_dir_of(main) {
                Some(dir) => if description.len() == 0 {
                    (
                        CreateView::AskingDescription { dir },
                        just(RequestView::ReadLine(prompt_line(m.what_to_implement@))),
                    )
                } else {
                    suggest(config_dir, dir, description, Seq::empty())
                },
                None => failed(fail_with(NO_WORKTREES_DIR@)),
            },
            None => failed(fail_with(NO_WORKTREES_DIR@)),
        },
        (CreateView::AskingDescription { dir }, ReplyView::Line(line)) => if strip(
            line,
            CharClass::Space,
        ).len() == 0 {
            failed(fail_with(m.enter_desc@))
        } else {
            suggest(config_dir, dir, strip(line, CharClass::Space), Seq::empty())
        },
        (CreateView::LoadingModel { dir, description, feedback }, ReplyView::Output(content)) => (
            CreateView::Suggesting { dir, description },
            just(
                RequestView::Suggest {
                    notice: info_text(m.generating_branch@),
                    args: suggester_args(saved_model(content), prompt_text(description, feedback)),
                },
            ),
        ),
        (CreateView::Suggesting { dir, description }, ReplyView::Output(output)) => {
            let session = CreateSessionView {
                dir,
                description,
                suggested: offered_name(fallback_name(lowercase(description)), output),
            };
            (CreateView::Choosing(session), menu_of(m, session))
        },
        (CreateView::Choosing(session), ReplyView::Selected(choice)) => match choice {
            None => failed(failure()),
            Some(index) => if index == 0 {
                check(session.dir, session.suggested)
            } else if index == 1 {
                (
                    CreateView::EnteringName(session),
                    just(RequestView::ReadLine(prompt_line(m.branch_name@))),
                )
            } else if index == 2 {
                (
                    CreateView::EnteringFeedback(session),
                    just(RequestView::ReadLine(prompt_line(m.feedback@))),
                )
            } else {
                (CreateView::Choosing(session), menu_of(m, session))
            },
        },
        (CreateView::EnteringName(session), ReplyView::Line(line)) => if strip(
            line,
            CharClass::Space,
        ).len() == 0 {
            offer_again(m, session, m.enter_branch_name@)
        } else {
            check(session.dir, strip(line, CharClass::Space))
        },
        (CreateView::EnteringFeedback(session), ReplyView::Line(line)) => if strip(
            line,
            CharClass::Space,
        ).len() == 0 {
            offer_again(m, session, m.enter_feedback@)
        } else {
            suggest(config_dir, session.dir, session.description, strip(line, CharClass::Space))
        },
        (CreateView::CheckingTarget(target), ReplyView::Status(taken)) => if taken {
            failed(fail_with(m.wt_already_exists@ + ": "@ + target.path))
        } else {
            (
                CreateView::AddingNew(target),
                StepView {
                    acts: seq![
                        ActView::MakeDir(target.dir),
                        ActView::Say(info_text(m.creating_wt@)),
                    ],
                    request: RequestView::AddWorktree {
                        path: target.path,
                        branch: target.branch,
                        new_branch: true,
                    },
                },
            )
        },
        (CreateView::AddingNew(target), ReplyView::Status(added)) => if added {
            created(m, target, m.wt_created@)
        } else {
            (
                CreateView::AddingExisting(target),
                just(
                    RequestView::AddWorktree {
                        path: target.path,
                        branch: target.branch,
                        new_branch: false,
                    },
                ),
            )
        },
        (CreateView::AddingExisting(target), ReplyView::Status(added)) => if added {
            created(m, target, m.wt_created_existing@)
        } else {
            failed(fail_with(m.wt_create_failed@))
        },
        _ => failed(failure()),
    }
}

/// A worktree is added only where nothing stands in its place. A step
/// asks for a worktree on a new branch only when it was just told that no
/// directory is at the target's path, and on an existing branch only after
/// the attempt with a new branch failed; told that a directory is there,
/// the workflow fails at once. It never asks for anything to be removed
/// or deleted.
pub proof fn lemma_no_add_on_collision(
    m: Messages,
    config_dir: Seq<char>,
    state: CreateView,
    reply: ReplyView,
)
    ensures
        match create_step(m, config_dir, state, reply).1.request {
            RequestView::AddWorktree { path, branch, new_branch } => {
                &&& if new_branch {
                    state == CreateView::CheckingTarget(
                        TargetView { dir: target_dir(state), path, branch },
                    ) && reply == ReplyView::Status(false)
                } else {
                    state == CreateView::AddingNew(
                        TargetView { dir: target_dir(state), path, branch },
                    ) && reply == ReplyView::Status(false)
                }
            },
            RequestView::RemoveWorktree { .. } => false,
            RequestView::DeleteBranch { .. } => false,
            _ => true,
        },
        state matches CreateView::CheckingTarget(target) ==> (reply == ReplyView::Status(true)
            ==> create_step(m, config_dir, state, reply) == failed(
            fail_with(m.wt_already_exists@ + ": "@ + target.path),
        )),
        create_step(m, config_dir, CreateView::Finished, reply) == failed(failure()),
        create_step(m, config_dir, state, reply).0 is CheckingTarget ==> create_step(
            m,
            config_dir,
            state,
            reply,
        ).1.request is IsDir,
        create_step(m, config_dir, state, reply).0 matches CreateView::CheckingTarget(target)
            ==> target.path == target_path(target.dir, target.branch) && create_step(
            m,
            config_dir,
            state,
            reply,
        ).1.request == RequestView::IsDir(target.path),
{
}

/// Between the check and the creation nothing comes: whatever the
/// workflow was doing, a step that asks for a worktree on a new branch
/// follows at once on a step that asked whether a directory is at that
/// very path, and on the answer that none is; and a step that asks for a
/// worktree on an existing branch follows at once on the attempt with a
/// new branch for the same path and branch, and on its failure.
pub proof fn lemma_add_follows_check(
    m: Messages,
    config_dir: Seq<char>,
    state: CreateView,
    first: ReplyView,
    second: ReplyView,
)
    ensures
        ({
            let before = create_step(m, config_dir, state, first);
            let after = create_step(m, config_dir, before.0, second);
            match after.1.request {
                RequestView::AddWorktree { path, branch, new_branch } => {
                    &&& second == ReplyView::Status(false)
                    &&& if new_branch {
                        before.1.request == RequestView::IsDir(path)
                    } else {
                        before.1.request == RequestView::AddWorktree {
                            path,
                            branch,
                            new_branch: true,
                        }
                    }
                },
                _ => true,
            }
        }),
{
    lemma_no_add_on_collision(m, config_dir, state, first);
    lemma_no_add_on_collision(m, config_dir, create_step(m, config_dir, state, first).0, second);
}

/// The directory of the worktrees in a state that holds a target.
pub open spec fn target_dir(state: CreateView) -> Seq<char> {
    match state {
        CreateView::CheckingTarget(t) => t.dir,
        CreateView::AddingNew(t) => t.dir,
        CreateView::AddingExisting(t) => t.dir,
        _ => Seq::empty(),
    }
}

/// The arguments for the suggester.
pub fn suggester_args_of(model: Option<String>, question: String) -> (args: Vec<String>)
    ensures
        views(args@) == suggester_args(opt_view(model), question@),
{
    let mut args: Vec<String> = Vec::new();
    match model {
        Some(model) => {
            push_text(&mut args, String::from_str("--model"));
            push_text(&mut args, model);
        },
        None => {},
    }
    push_text(&mut args, String::from_str("-p"));
    push_text(&mut args, question);
    args
}

fn start_suggesting(app: &App, dir: String, description: String, feedback: String) -> (next: (
    CreateState,
    Step,
))
    ensures
        (next.0@, next.1@) == suggest(app.config_dir@, dir@, description@, feedback@),
{
    let file = model_file(app.config_dir.as_str());
    (
        CreateState::LoadingModel { dir, description, feedback },
        Step::just(Request::ReadFile(file)),
    )
}

fn branch_menu(m: &Messages, session: &CreateSession) -> (step: Step)
    ensures
        step@ == menu_of(*m, session@),
{
    let mut items: Vec<String> = Vec::new();
    push_text(&mut items, session.suggested.clone());
    push_text(&mut items, String::from_str(m.enter_manually));
    push_text(&mut items, String::from_str(m.regenerate));
    assert(views(items@) == seq![session.suggested@, m.enter_manually@, m.regenerate@]);
    Step::just(
        Request::Select(
            MenuSpec {
                title: String::from_str(m.select_branch),
                items,
                hint: String::from_str(m.menu_hint),
            },
        ),
    )
}

fn branch_menu_again(m: &Messages, session: CreateSession, complaint: &str) -> (next: (
    CreateState,
    Step,
))
    ensures
        (next.0@, next.1@) == offer_again(*m, session@, complaint@),
{
    let menu = branch_menu(m, &session);
    let step = Step::say_then(err(complaint), menu.request);
    (CreateState::Choosing(session), step)
}

fn check_target(dir: String, branch: String) -> (next: (CreateState, Step))
    ensures
        (next.0@, next.1@) == check(dir@, branch@),
{
    let name = replace_char(branch.as_str(), '/', '-');
    let mut path = dir.clone();
    path.append("/");
    path.append(name.as_str());
    let asked = path.clone();
    (CreateState::CheckingTarget(Target { dir, path, branch }), Step::just(Request::IsDir(asked)))
}

/// Two spaces, `name` dimmed, a space, `value`.
fn detail(name: &str, value: &str) -> (line: String)
    ensures
        line@ == "  "@ + DIM@ + name@ + NC@ + " "@ + value@,
{
    let mut line = String::from_str("  ");
    line.append(DIM);
    line.append(name);
    line.append(NC);
    line.append(" ");
    line.append(value);
    line
}

fn report_created(m: &Messages, target: Target, report: &str) -> (next: (CreateState, Step))
    ensures
        (next.0@, next.1@) == created(*m, target@, report@),
{
    let mut acts: Vec<Act> = Vec::new();
    push_say(&mut acts, success(report));
    push_say(&mut acts, String::new());
    push_say(&mut acts, detail(m.path, target.path.as_str()));
    push_say(&mut acts, detail(m.branch, target.branch.as_str()));
    push_say(&mut acts, String::new());
    let mut hint = String::from_str(CYAN);
    hint.append("\u{25b8}");
    hint.append(NC);
    hint.append(" ");
    hint.append(m.to_switch);
    hint.append(" ");
    hint.append(BOLD);
    hint.append("shuu switch");
    hint.append(NC);
    push_say(&mut acts, hint);
    assert(act_views(acts@) == created(*m, target@, report@).1.acts);
    (CreateState::Finished, Step { acts, request: Request::Done })
}

/// Takes the create workflow one step on: from `state` and the answer to
/// the request before, to the next state and what to do now. It begins
/// in `CreateState::Start` with `Reply::Start`.
pub fn cmd_create(app: &App, state: CreateState, reply: Reply) -> (next: (CreateState, Step))
    ensures
        (next.0@, next.1@) == create_step(app.messages, app.config_dir@, state@, reply@),
{
    let m = &app.messages;
    let ghost expected = create_step(app.messages, app.config_dir@, state@, reply@);
    let next = match (state, reply) {
        (CreateState::Start(description), Reply::Start) => (
            CreateState::CheckingRepo(description),
            Step::just(is_git_repo()),
        ),
        (CreateState::CheckingRepo(description), Reply::Status(is_repo)) => {
            if is_repo {
                (CreateState::Listing(description), Step::just(Request::ListWorktrees))
            } else {
                (CreateState::Finished, Step::fail_with(m.not_git_repo))
            }
        },
        (CreateState::Listing(description), Reply::Output(output)) => {
            let list = match &output {
                Some(text) => worktree_list(Some(text.as_str())),
                None => worktree_list(None),
            };
            match worktrees_dir(&list) {
                Some(dir) => {
                    if description.as_str().is_empty() {
                        (
                            CreateState::AskingDescription { dir },
                            Step::just(Request::ReadLine(prompt(m.what_to_implement))),
                        )
                    } else {
                        start_suggesting(app, dir, description, String::new())
                    }
                },
                None => (CreateState::Finished, Step::fail_with(NO_WORKTREES_DIR)),
            }
        },
        (CreateState::AskingDescription { dir }, Reply::Line(line)) => {
            let description = trim(line.as_str());
            if description.as_str().is_empty() {
                (CreateState::Finished, Step::fail_with(m.enter_desc))
            } else {
                start_suggesting(app, dir, description, String::new())
            }
        },
        (CreateState::LoadingModel { dir, description, feedback }, Reply::Output(content)) => {
            let question = build_prompt(description.as_str(), feedback.as_str());
            let args = suggester_args_of(get_model(content), question);
            (
                CreateState::Suggesting { dir, description },
                Step::just(Request::Suggest { notice: info(m.generating_branch), args }),
            )
        },
        (CreateState::Suggesting { dir, description }, Reply::Output(output)) => {
            let suggested = match &output {
                Some(text) => generate_branch_name(description.as_str(), Some(text.as_str())),
                None => generate_branch_name(description.as_str(), None),
            };
            let session = CreateSession { dir, description, suggested };
            let step = branch_menu(m, &session);
            (CreateState::Choosing(session), step)
        },
        (CreateState::Choosing(session), Reply::Selected(choice)) => {
            match choice {
                None => (CreateState::Finished, Step::failure()),
                Some(index) => {
                    if index == 0 {
                        check_target(session.dir, session.suggested)
                    } else if index == 1 {
                        (
                            CreateState::EnteringName(session),
                            Step::just(Request::ReadLine(prompt(m.branch_name))),
                        )
                    } else if index == 2 {
                        (
                            CreateState::EnteringFeedback(session),
                            Step::just(Request::ReadLine(prompt(m.feedback))),
                        )
                    } else {
                        let step = branch_menu(m, &session);
                        (CreateState::Choosing(session), step)
                    }
                },
            }
        },
        (CreateState::EnteringName(session), Reply::Line(line)) => {
            let name = trim(line.as_str());
            if name.as_str().is_empty() {
                branch_menu_again(m, session, m.enter_branch_name)
            } else {
                check_target(session.dir, name)
            }
        },
        (CreateState::EnteringFeedback(session), Reply::Line(line)) => {
            let feedback = trim(line.as_str());
            if feedback.as_str().is_empty() {
                branch_menu_again(m, session, m.enter_feedback)
            } else {
                start_suggesting(app, session.dir, session.description, feedback)
            }
        },
        (CreateState::CheckingTarget(target), Reply::Status(taken)) => {
            if taken {
                let complaint = colon(m.wt_already_exists, target.path.as_str());
                (CreateState::Finished, Step::fail_with(complaint.as_str()))
            } else {
                let mut acts: Vec<Act> = Vec::new();
                push_act(&mut acts, Act::MakeDir(target.dir.clone()));
                push_say(&mut acts, info(m.creating_wt));
                match worktree_add(target.path.as_str(), target.branch.as_str(), None) {
                    AddStep::Try(request) => (
                        CreateState::AddingNew(target),
                        Step { acts, request },
                    ),
                    _ => (CreateState::Finished, Step::failure()),
                }
            }
        },
        (CreateState::AddingNew(target), Reply::Status(added)) => {
            let last = Some((AddAttempt::NewBranch, added));
            match worktree_add(target.path.as_str(), target.branch.as_str(), last) {
                AddStep::Try(request) => (CreateState::AddingExisting(target), Step::just(request)),
                AddStep::Added(_) => report_created(m, target, m.wt_created),
                AddStep::Failed => (CreateState::Finished, Step::fail_with(m.wt_create_failed)),
            }
        },
        (CreateState::AddingExisting(target), Reply::Status(added)) => {
            let last = Some((AddAttempt::ExistingBranch, added));
            match worktree_add(target.path.as_str(), target.branch.as_str(), last) {
                AddStep::Added(_) => report_created(m, target, m.wt_created_existing),
                _ => (CreateState::Finished, Step::fail_with(m.wt_create_failed)),
            }
        },
        _ => (CreateState::Finished, Step::failure()),
    };
    assert(next.1@.acts == expected.1.acts);
    next
}

} // verus!
