//! The words in which a workflow and the program that runs it speak to each
//! other. A workflow does nothing to the outside world itself: each step
//! gives what to do, in order, and one request; the answer to the request
//! is the next step's input.

use crate::i18n::{Lang, Messages};
use crate::menu::{MenuSpec, MenuSpecView};
use crate::text::{opt_view, views};
use vstd::prelude::*;
use vstd::string::*;

verus! {

/// The escape sequence that turns the text red.
pub const RED: &'static str = "\x1b[0;31m";

/// The escape sequence that turns the text green.
pub const GREEN: &'static str = "\x1b[0;32m";

/// The escape sequence that turns the text yellow.
pub const YELLOW: &'static str = "\x1b[0;33m";

/// The escape sequence that turns the text blue.
pub const BLUE: &'static str = "\x1b[0;34m";

/// The escape sequence that turns the text cyan.
pub const CYAN: &'static str = "\x1b[0;36m";

/// The escape sequence that makes the text bold.
pub const BOLD: &'static str = "\x1b[1m";

/// The escape sequence that dims the text.
pub const DIM: &'static str = "\x1b[2m";

/// The escape sequence that ends colour, bold and dim.
pub const NC: &'static str = "\x1b[0m";

/// The version of the program.
pub const VERSION: &'static str = "2.1.0";

/// What every workflow is given: the language in force, its texts, and the
/// directory of the settings.
#[derive(Debug)]
pub struct App {
    pub lang: Lang,
    pub messages: Messages,
    pub config_dir: String,
}

/// The line that reports an error.
pub open spec fn err_text(msg: Seq<char>) -> Seq<char> {
    RED@ + "error:"@ + NC@ + " "@ + msg
}

/// The line that reports what is going on.
pub open spec fn info_text(msg: Seq<char>) -> Seq<char> {
    CYAN@ + "\u{25b8}"@ + NC@ + " "@ + msg
}

/// The line that reports a success.
pub open spec fn success_text(msg: Seq<char>) -> Seq<char> {
    GREEN@ + "\u{2713}"@ + NC@ + " "@ + msg
}

/// What is shown before a line is read: the question in bold, then a space.
pub open spec fn prompt_line(question: Seq<char>) -> Seq<char> {
    BOLD@ + question + NC@ + " "@
}

/// The line that reports an error.
pub fn err(msg: &str) -> (line: String)
    ensures
        line@ == err_text(msg@),
{
    let mut line = String::from_str(RED);
    line.append("error:");
    line.append(NC);
    line.append(" ");
    line.append(msg);
    line
}

/// The line that reports what is going on.
pub fn info(msg: &str) -> (line: String)
    ensures
        line@ == info_text(msg@),
{
    let mut line = String::from_str(CYAN);
    line.append("\u{25b8}");
    line.append(NC);
    line.append(" ");
    line.append(msg);
    line
}

/// The line that reports a success.
pub fn success(msg: &str) -> (line: String)
    ensures
        line@ == success_text(msg@),
{
    let mut line = String::from_str(GREEN);
    line.append("\u{2713}");
    line.append(NC);
    line.append(" ");
    line.append(msg);
    line
}

/// What is shown before a line is read.
pub fn prompt(question: &str) -> (line: String)
    ensures
        line@ == prompt_line(question@),
{
    let mut line = String::from_str(BOLD);
    line.append(question);
    line.append(NC);
    line.append(" ");
    line
}

/// `head`, a colon and a space, then `tail`: a message with what it is about.
pub fn colon(head: &str, tail: &str) -> (line: String)
    ensures
        line@ == head@ + ": "@ + tail@,
{
    let mut line = String::from_str(head);
    line.append(": ");
    line.append(tail);
    line
}

/// Whether an answer to a yes-or-no question is a yes: exactly `y` or `Y`,
/// white space round it aside. Anything else, an empty line too, is a no.
pub open spec fn is_yes(line: Seq<char>) -> bool {
    let answer = crate::text::strip(line, crate::text::CharClass::Space);
    answer == seq!['y'] || answer == seq!['Y']
}

/// Whether `line` answers a yes-or-no question with yes.
pub fn confirm(line: &str) -> (yes: bool)
    ensures
        yes == is_yes(line@),
{
    let answer = crate::text::trim(line);
    let v = crate::text::chars_of(answer.as_str());
    let yes = v.len() == 1 && (v[0] == 'y' || v[0] == 'Y');
    proof {
        if yes {
            assert(v@ == seq![v@[0]]);
        }
    }
    yes
}

/// What the program can be told to do.
#[derive(Clone, Debug, PartialEq, Eq)]
pub enum Command {
    /// Show the banner and the menu of all commands.
    Interactive,
    /// Create a worktree for what the description says; an empty
    /// description is asked for.
    Create(String),
    List,
    Remove,
    Switch,
    Settings,
    Help,
}

/// A `Command` as plain text.
pub enum CommandView {
    Interactive,
    Create(Seq<char>),
    List,
    Remove,
    Switch,
    Settings,
    Help,
}

impl View for Command {
    type V = CommandView;

    open spec fn view(&self) -> CommandView {
        match self {
            Command::Interactive => CommandView::Interactive,
            Command::Create(description) => CommandView::Create(description@),
            Command::List => CommandView::List,
            Command::Remove => CommandView::Remove,
            Command::Switch => CommandView::Switch,
            Command::Settings => CommandView::Settings,
            Command::Help => CommandView::Help,
        }
    }
}

/// Something to do whose outcome the workflow does not wait for: a failure
/// is passed over.
#[derive(Clone, Debug, PartialEq, Eq)]
pub enum Act {
    /// Write the line to the error stream, then a line break.
    Say(String),
    /// Make the directory and those above it that are missing.
    MakeDir(String),
    /// Write the file anew.
    WriteFile { path: String, content: String },
    /// Remove the file.
    RemoveFile(String),
}

/// An `Act` as plain text.
pub enum ActView {
    Say(Seq<char>),
    MakeDir(Seq<char>),
    WriteFile { path: Seq<char>, content: Seq<char> },
    RemoveFile(Seq<char>),
}

impl View for Act {
    type V = ActView;

    open spec fn view(&self) -> ActView {
        match self {
            Act::Say(line) => ActView::Say(line@),
            Act::MakeDir(path) => ActView::MakeDir(path@),
            Act::WriteFile { path, content } => ActView::WriteFile {
                path: path@,
                content: content@,
            },
            Act::RemoveFile(path) => ActView::RemoveFile(path@),
        }
    }
}

/// Something to do whose outcome the workflow waits for.
#[derive(Clone, Debug, PartialEq, Eq)]
pub enum Request {
    /// Ask the version-control tool whether this is a repository. Answer: `Status`.
    IsRepo,
    /// Ask it for the list of worktrees. Answer: `Output`.
    ListWorktrees,
    /// Ask it for the top directory of the repository. Answer: `Output`.
    TopLevel,
    /// Ask it for the current branch. Answer: `Output`.
    CurrentBranch,
    /// Have it add a worktree at `path` on `branch`, which is new or
    /// exists already. Answer: `Status`.
    AddWorktree { path: String, branch: String, new_branch: bool },
    /// Have it remove the worktree at `path`, by force or not. Answer: `Status`.
    RemoveWorktree { path: String, force: bool },
    /// Have it delete the branch, by force or not. Answer: `Status`.
    DeleteBranch { name: String, force: bool },
    /// Run the suggester with these arguments, if there is one, after
    /// saying `notice`. Answer: `Output`, what it printed if it succeeded.
    Suggest { notice: String, args: Vec<String> },
    /// Show the text and read one line. Answer: `Line`.
    ReadLine(String),
    /// Run the menu. Answer: `Selected`.
    Select(MenuSpec),
    /// Is there a directory at this path? Answer: `Status`.
    IsDir(String),
    /// Is there anything at this path? Answer: `Status`.
    Exists(String),
    /// Read the file. Answer: `Output`, what it holds if it could be read.
    ReadFile(String),
    /// Where are we? Answer: `Output`, the working directory in canonical form.
    CurrentDir,
    /// The workflow is over; that of the command follows.
    Run(Command),
    /// The workflow is over.
    Done,
    /// The workflow is over, and the program with it, with this exit code.
    Exit(u8),
}

/// A `Request` as plain text.
pub enum RequestView {
    IsRepo,
    ListWorktrees,
    TopLevel,
    CurrentBranch,
    AddWorktree { path: Seq<char>, branch: Seq<char>, new_branch: bool },
    RemoveWorktree { path: Seq<char>, force: bool },
    DeleteBranch { name: Seq<char>, force: bool },
    Suggest { notice: Seq<char>, args: Seq<Seq<char>> },
    ReadLine(Seq<char>),
    Select(MenuSpecView),
    IsDir(Seq<char>),
    Exists(Seq<char>),
    ReadFile(Seq<char>),
    CurrentDir,
    Run(CommandView),
    Done,
    Exit(u8),
}

impl View for Request {
    type V = RequestView;

    open spec fn view(&self) -> RequestView {
        match self {
            Request::IsRepo => RequestView::IsRepo,
            Request::ListWorktrees => RequestView::ListWorktrees,
            Request::TopLevel => RequestView::TopLevel,
            Request::CurrentBranch => RequestView::CurrentBranch,
            Request::AddWorktree { path, branch, new_branch } => RequestView::AddWorktree {
                path: path@,
                branch: branch@,
                new_branch: *new_branch,
            },
            Request::RemoveWorktree { path, force } => RequestView::RemoveWorktree {
                path: path@,
                force: *force,
            },
            Request::DeleteBranch { name, force } => RequestView::DeleteBranch {
                name: name@,
                force: *force,
            },
            Request::Suggest { notice, args } => RequestView::Suggest {
                notice: notice@,
                args: views(args@),
            },
            Request::ReadLine(text) => RequestView::ReadLine(text@),
            Request::Select(menu) => RequestView::Select(menu@),
            Request::IsDir(path) => RequestView::IsDir(path@),
            Request::Exists(path) => RequestView::Exists(path@),
            Request::ReadFile(path) => RequestView::ReadFile(path@),
            Request::CurrentDir => RequestView::CurrentDir,
            Request::Run(command) => RequestView::Run(command@),
            Request::Done => RequestView::Done,
            Request::Exit(code) => RequestView::Exit(*code),
        }
    }
}

/// The answer to a request.
#[derive(Clone, Debug, PartialEq, Eq)]
pub enum Reply {
    /// Nothing was asked yet: the workflow begins.
    Start,
    /// Yes or no; for an operation, whether it succeeded.
    Status(bool),
    /// What was printed or read, if anything was.
    Output(Option<String>),
    /// The line that was read, as it was typed.
    Line(String),
    /// What the menu returned.
    Selected(Option<usize>),
}

/// A `Reply` as plain text.
pub enum ReplyView {
    Start,
    Status(bool),
    Output(Option<Seq<char>>),
    Line(Seq<char>),
    Selected(Option<usize>),
}

impl View for Reply {
    type V = ReplyView;

    open spec fn view(&self) -> ReplyView {
        match self {
            Reply::Start => ReplyView::Start,
            Reply::Status(ok) => ReplyView::Status(*ok),
            Reply::Output(text) => ReplyView::Output(opt_view(*text)),
            Reply::Line(line) => ReplyView::Line(line@),
            Reply::Selected(choice) => ReplyView::Selected(*choice),
        }
    }
}

/// One step of a workflow: what to do, in order, and then what to ask.
#[derive(Clone, Debug, PartialEq, Eq)]
pub struct Step {
    pub acts: Vec<Act>,
    pub request: Request,
}

/// A `Step` as plain text.
pub struct StepView {
    pub acts: Seq<ActView>,
    pub request: RequestView,
}

/// The views of a list of acts.
pub open spec fn act_views(acts: Seq<Act>) -> Seq<ActView> {
    acts.map_values(|a: Act| a@)
}

impl View for Step {
    type V = StepView;

    open spec fn view(&self) -> StepView {
        StepView { acts: act_views(self.acts@), request: self.request@ }
    }
}

/// The step that does nothing but ask.
pub open spec fn just(request: RequestView) -> StepView {
    StepView { acts: Seq::empty(), request }
}

/// The step that says one line and then asks.
pub open spec fn say_then(line: Seq<char>, request: RequestView) -> StepView {
    StepView { acts: seq![ActView::Say(line)], request }
}

/// The step that ends a workflow in failure without a word.
pub open spec fn failure() -> StepView {
    just(RequestView::Exit(1))
}

/// The step that ends a workflow in failure with an error message.
pub open spec fn fail_with(msg: Seq<char>) -> StepView {
    say_then(err_text(msg), RequestView::Exit(1))
}

impl Step {
    /// The step that does nothing but ask.
    pub fn just(request: Request) -> (step: Step)
        ensures
            step@ == just(request@),
    {
        let step = Step { acts: Vec::new(), request };
        assert(act_views(step.acts@) == Seq::<ActView>::empty());
        step
    }

    /// The step that says one line and then asks.
    pub fn say_then(line: String, request: Request) -> (step: Step)
        ensures
            step@ == say_then(line@, request@),
    {
        let mut acts: Vec<Act> = Vec::new();
        acts.push(Act::Say(line));
        assert(act_views(acts@) == seq![ActView::Say(line@)]);
        Step { acts, request }
    }

    /// The step that ends a workflow in failure without a word.
    pub fn failure() -> (step: Step)
        ensures
            step@ == failure(),
    {
        Step::just(Request::Exit(1))
    }

    /// The step that ends a workflow in failure with an error message.
    pub fn fail_with(msg: &str) -> (step: Step)
        ensures
            step@ == fail_with(msg@),
    {
        Step::say_then(err(msg), Request::Exit(1))
    }
}

/// Adds an act to a list of acts.
pub fn push_act(acts: &mut Vec<Act>, act: Act)
    ensures
        act_views(final(acts)@) == act_views(old(acts)@).push(act@),
{
    acts.push(act);
}

/// Adds a line to say to a list of acts.
pub fn push_say(acts: &mut Vec<Act>, line: String)
    ensures
        act_views(final(acts)@) == act_views(old(acts)@).push(ActView::Say(line@)),
{
    push_act(acts, Act::Say(line));
}

/// Adds a string to a list of strings.
pub fn push_text(list: &mut Vec<String>, text: String)
    ensures
        views(final(list)@) == views(old(list)@).push(text@),
{
    list.push(text);
}

/// The arguments with which the version-control tool carries out a
/// request; none for a request that is not made of it.
pub open spec fn git_args_of(request: RequestView) -> Option<Seq<Seq<char>>> {
    match request {
        RequestView::IsRepo => Some(seq!["rev-parse"@, "--is-inside-work-tree"@]),
        RequestView::ListWorktrees => Some(seq!["worktree"@, "list"@]),
        RequestView::TopLevel => Some(seq!["rev-parse"@, "--show-toplevel"@]),
        RequestView::CurrentBranch => Some(seq!["branch"@, "--show-current"@]),
        RequestView::AddWorktree { path, branch, new_branch } => if new_branch {
            Some(seq!["worktree"@, "add"@, "-b"@, branch, path])
        } else {
            Some(seq!["worktree"@, "add"@, path, branch])
        },
        RequestView::RemoveWorktree { path, force } => if force {
            Some(seq!["worktree"@, "remove"@, "--force"@, path])
        } else {
            Some(seq!["worktree"@, "remove"@, path])
        },
        RequestView::DeleteBranch { name, force } => if force {
            Some(seq!["branch"@, "-D"@, name])
        } else {
            Some(seq!["branch"@, "-d"@, name])
        },
        _ => None,
    }
}

/// The view of a list of strings that may be missing.
pub open spec fn opt_views(list: Option<Vec<String>>) -> Option<Seq<Seq<char>>> {
    match list {
        Some(list) => Some(views(list@)),
        None => None,
    }
}

fn args2(a: &str, b: &str) -> (args: Vec<String>)
    ensures
        views(args@) == seq![a@, b@],
{
    let mut args: Vec<String> = Vec::new();
    push_text(&mut args, String::from_str(a));
    push_text(&mut args, String::from_str(b));
    args
}

/// The arguments with which the version-control tool carries out a request.
pub fn git_args(request: &Request) -> (args: Option<Vec<String>>)
    ensures
        opt_views(args) == git_args_of(request@),
{
    match request {
        Request::IsRepo => Some(args2("rev-parse", "--is-inside-work-tree")),
        Request::ListWorktrees => Some(args2("worktree", "list")),
        Request::TopLevel => Some(args2("rev-parse", "--show-toplevel")),
        Request::CurrentBranch => Some(args2("branch", "--show-current")),
        Request::AddWorktree { path, branch, new_branch } => {
            let mut args = args2("worktree", "add");
            if *new_branch {
                push_text(&mut args, String::from_str("-b"));
                push_text(&mut args, branch.clone());
                push_text(&mut args, path.clone());
            } else {
                push_text(&mut args, path.clone());
                push_text(&mut args, branch.clone());
            }
            Some(args)
        },
        Request::RemoveWorktree { path, force } => {
            let mut args = args2("worktree", "remove");
            if *force {
                push_text(&mut args, String::from_str("--force"));
            }
            push_text(&mut args, path.clone());
            Some(args)
        },
        Request::DeleteBranch { name, force } => {
            let mut args: Vec<String> = Vec::new();
            push_text(&mut args, String::from_str("branch"));
            if *force {
                push_text(&mut args, String::from_str("-D"));
            } else {
                push_text(&mut args, String::from_str("-d"));
            }
            push_text(&mut args, name.clone());
            Some(args)
        },
        _ => None,
    }
}

} // verus!
