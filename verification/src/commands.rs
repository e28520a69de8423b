//! What the program is told to do, and the workflows that only show
//! something: the list of worktrees, the help, and the banner and menu of
//! the interactive start.

use crate::config::{get_model, joined, model_file, saved_model};
use crate::flow::{
    act_views, fail_with, failure, just, push_text, Act, ActView, App, Command, CommandView, Reply,
    ReplyView, Request, RequestView, Step, StepView, BLUE, BOLD, DIM, GREEN, NC, VERSION, YELLOW,
};
use crate::git::{
    current_branch, current_branch_of, is_git_repo, listed, main_path, record_views, repo_name,
    repo_name_of, worktree_list, Worktree, WorktreeView,
};
use crate::i18n::Messages;
use crate::menu::{MenuSpec, MenuSpecView};
use crate::text::{decimal, opt_view, push_decimal, same, views};
use vstd::prelude::*;
use vstd::string::*;

verus! {

/// `words` with a space between each two.
pub open spec fn spaced(words: Seq<Seq<char>>) -> Seq<char>
    decreases words.len(),
{
    if words.len() == 0 {
        Seq::empty()
    } else if words.len() == 1 {
        words[0]
    } else {
        spaced(words.drop_last()) + " "@ + words.last()
    }
}

/// What the arguments of the program, its own name first, tell it to do.
///
/// Without an argument it starts interactively. A first argument that is
/// no command's name begins a description of what to create.
pub open spec fn dispatched(args: Seq<Seq<char>>) -> CommandView {
    if args.len() < 2 {
        CommandView::Interactive
    } else if args[1] == "create"@ || args[1] == "c"@ {
        CommandView::Create(spaced(args.skip(2)))
    } else if args[1] == "list"@ || args[1] == "l"@ || args[1] == "ls"@ {
        CommandView::List
    } else if args[1] == "remove"@ || args[1] == "rm"@ {
        CommandView::Remove
    } else if args[1] == "switch"@ || args[1] == "s"@ {
        CommandView::Switch
    } else if args[1] == "settings"@ {
        CommandView::Settings
    } else if args[1] == "help"@ || args[1] == "-h"@ || args[1] == "--help"@ {
        CommandView::Help
    } else {
        CommandView::Create(spaced(args.skip(1)))
    }
}

/// The arguments from index `from` on, with a space between each two.
fn join_from(args: &Vec<String>, from: usize) -> (text: String)
    requires
        from <= args.len(),
    ensures
        text@ == spaced(views(args@).skip(from as int)),
{
    let mut text = String::new();
    let mut i: usize = from;
    while i < args.len()
        invariant
            from <= i <= args.len(),
            text@ == spaced(views(args@).subrange(from as int, i as int)),
        decreases args.len() - i,
    {
        proof {
            let upto = views(args@).subrange(from as int, i + 1);
            assert(upto.drop_last() == views(args@).subrange(from as int, i as int));
        }
        if i > from {
            text.append(" ");
        }
        text.append(args[i].as_str());
        i += 1;
    }
    text
}

/// Reads the arguments of the program, its own name first.
pub fn dispatch(args: &Vec<String>) -> (command: Command)
    ensures
        command@ == dispatched(views(args@)),
{
    if args.len() < 2 {
        return Command::Interactive;
    }
    let first = args[1].as_str();
    if same(first, "create") || same(first, "c") {
        Command::Create(join_from(args, 2))
    } else if same(first, "list") || same(first, "l") || same(first, "ls") {
        Command::List
    } else if same(first, "remove") || same(first, "rm") {
        Command::Remove
    } else if same(first, "switch") || same(first, "s") {
        Command::Switch
    } else if same(first, "settings") {
        Command::Settings
    } else if same(first, "help") || same(first, "-h") || same(first, "--help") {
        Command::Help
    } else {
        Command::Create(join_from(args, 1))
    }
}

/// The acts that say `lines`, one after the other.
pub open spec fn said(lines: Seq<Seq<char>>) -> Seq<ActView> {
    lines.map_values(|line: Seq<char>| ActView::Say(line))
}

/// The acts that say `lines`, one after the other.
pub fn say_all(lines: Vec<String>) -> (acts: Vec<Act>)
    ensures
        act_views(acts@) == said(views(lines@)),
{
    let mut acts: Vec<Act> = Vec::new();
    let mut i: usize = 0;
    while i < lines.len()
        invariant
            i <= lines.len(),
            acts.len() == i,
            forall|j: int| 0 <= j < i ==> acts@[j]@ == ActView::Say(lines@[j]@),
        decreases lines.len() - i,
    {
        acts.push(Act::Say(lines[i].clone()));
        i += 1;
    }
    acts
}

/// `s`, with spaces behind it up to `width` characters.
pub open spec fn padded(s: Seq<char>, width: nat) -> Seq<char> {
    if s.len() >= width {
        s
    } else {
        s + Seq::new((width - s.len()) as nat, |i: int| ' ')
    }
}

/// Appends `s` to `out`, with spaces behind it up to `width` characters.
fn push_padded(out: &mut String, s: &str, width: usize)
    ensures
        final(out)@ == old(out)@ + padded(s@, width as nat),
{
    let n = s.unicode_len();
    out.append(s);
    let mut i: usize = n;
    while i < width
        invariant
            n == s@.len(),
            n <= i,
            i <= width || n >= width,
            n < width ==> out@ == old(out)@ + (s@ + Seq::new((i - n) as nat, |k: int| ' ')),
            n >= width ==> out@ == old(out)@ + s@,
        decreases width - i,
    {
        out.push(' ');
        i += 1;
    }
}

/// How wide the column of paths is in the list of worktrees.
pub const PATH_WIDTH: usize = 50;

/// The line of one worktree in the list: the main one starred, its path
/// in bold and its branch green; the others indented, their branch blue.
pub open spec fn list_line(w: WorktreeView, main: Seq<char>) -> Seq<char> {
    if w.path == main {
        "  "@ + YELLOW@ + "\u{2605}"@ + NC@ + " "@ + BOLD@ + padded(w.path, PATH_WIDTH as nat)
            + NC@ + " "@ + DIM@ + w.hash + NC@ + "  "@ + GREEN@ + w.branch + NC@
    } else {
        "    "@ + padded(w.path, PATH_WIDTH as nat) + " "@ + DIM@ + w.hash + NC@ + "  "@ + BLUE@
            + w.branch + NC@
    }
}

/// The title above the list of worktrees, between two empty lines.
pub open spec fn list_title(m: Messages) -> Seq<char> {
    "\n"@ + BOLD@ + m.list_title@ + NC@ + "\n"@
}

/// The path of the main worktree, empty where nothing is listed.
pub open spec fn main_or_empty(list: Seq<WorktreeView>) -> Seq<char> {
    match main_path(list) {
        Some(path) => path,
        None => Seq::empty(),
    }
}

/// What the list of worktrees says: the title, a line for each worktree,
/// and an empty line.
pub open spec fn list_lines(m: Messages, list: Seq<WorktreeView>) -> Seq<Seq<char>> {
    seq![list_title(m)] + list.map_values(|w: WorktreeView| list_line(w, main_or_empty(list)))
        + seq![Seq::<char>::empty()]
}

/// Where a workflow stands that asks the version-control tool for the
/// worktrees and then shows them.
#[derive(Clone, Copy, Debug, PartialEq, Eq)]
pub enum ListState {
    Start,
    /// Asked whether this is a repository.
    CheckingRepo,
    /// Asked for the worktrees.
    Listing,
    Finished,
}

/// The next state and step of the list workflow. A reply that the state
/// does not expect ends it in failure.
pub open spec fn list_step(m: Messages, state: ListState, reply: ReplyView) -> (
    ListState,
    StepView,
) {
    match (state, reply) {
        (ListState::Start, ReplyView::Start) => (
            ListState::CheckingRepo,
            just(RequestView::IsRepo),
        ),
        (ListState::CheckingRepo, ReplyView::Status(is_repo)) => if is_repo {
            (ListState::Listing, just(RequestView::ListWorktrees))
        } else {
            (ListState::Finished, fail_with(m.not_git_repo@))
        },
        (ListState::Listing, ReplyView::Output(output)) => (
            ListState::Finished,
            StepView { acts: said(list_lines(m, listed(output))), request: RequestView::Done },
        ),
        _ => (ListState::Finished, failure()),
    }
}

fn list_line_of(w: &Worktree, main: &str) -> (line: String)
    ensures
        line@ == list_line(w@, main@),
{
    let mut line = String::new();
    if same(w.path.as_str(), main) {
        line.append("  ");
        line.append(YELLOW);
        line.append("\u{2605}");
        line.append(NC);
        line.append(" ");
        line.append(BOLD);
        push_padded(&mut line, w.path.as_str(), PATH_WIDTH);
        line.append(NC);
        line.append(" ");
        line.append(DIM);
        line.append(w.hash.as_str());
        line.append(NC);
        line.append("  ");
        line.append(GREEN);
        line.append(w.branch.as_str());
        line.append(NC);
    } else {
        line.append("    ");
        push_padded(&mut line, w.path.as_str(), PATH_WIDTH);
        line.append(" ");
        line.append(DIM);
        line.append(w.hash.as_str());
        line.append(NC);
        line.append("  ");
        line.append(BLUE);
        line.append(w.branch.as_str());
        line.append(NC);
    }
    line
}

/// What the list of worktrees says.
pub fn list_lines_of(m: &Messages, list: &Vec<Worktree>) -> (lines: Vec<String>)
    ensures
        views(lines@) == list_lines(*m, record_views(list@)),
{
    let main = if list.len() > 0 {
        list[0].path.clone()
    } else {
        String::new()
    };
    let mut title = String::from_str("\n");
    title.append(BOLD);
    title.append(m.list_title);
    title.append(NC);
    title.append("\n");
    let mut lines: Vec<String> = Vec::new();
    lines.push(title);
    let mut i: usize = 0;
    while i < list.len()
        invariant
            i <= list.len(),
            lines.len() == i + 1,
            main@ == main_or_empty(record_views(list@)),
            lines@[0]@ == list_title(*m),
            forall|j: int| 0 <= j < i ==> lines@[j + 1]@ == list_line(list@[j]@, main@),
        decreases list.len() - i,
    {
        lines.push(list_line_of(&list[i], main.as_str()));
        i += 1;
    }
    lines.push(String::new());
    lines
}

/// Takes the list workflow one step on: from `state` and the answer to
/// the request before, to the next state and what to do now. It begins
/// in `ListState::Start` with `Reply::Start`.
pub fn cmd_list(app: &App, state: ListState, reply: Reply) -> (next: (ListState, Step))
    ensures
        (next.0, next.1@) == list_step(app.messages, state, reply@),
{
    let m = &app.messages;
    match (state, reply) {
        (ListState::Start, Reply::Start) => (ListState::CheckingRepo, Step::just(is_git_repo())),
        (ListState::CheckingRepo, Reply::Status(is_repo)) => {
            if is_repo {
                (ListState::Listing, Step::just(Request::ListWorktrees))
            } else {
                (ListState::Finished, Step::fail_with(m.not_git_repo))
            }
        },
        (ListState::Listing, Reply::Output(output)) => {
            let list = match &output {
                Some(text) => worktree_list(Some(text.as_str())),
                None => worktree_list(None),
            };
            let acts = say_all(list_lines_of(m, &list));
            (ListState::Finished, Step { acts, request: Request::Done })
        },
        _ => (ListState::Finished, Step::failure()),
    }
}

/// What the help says, line by line.
pub open spec fn help_lines(m: Messages) -> Seq<Seq<char>> {
    seq![
        Seq::<char>::empty(),
        BOLD@ + "shuu"@ + NC@ + " - Git Worktree Manager v"@ + VERSION@,
        Seq::<char>::empty(),
        BOLD@ + m.help_usage@ + ":"@ + NC@,
        "    shuu <command>"@,
        "    shuu \"<description>\"       "@ + m.help_direct_desc@,
        Seq::<char>::empty(),
        BOLD@ + m.help_commands@ + ":"@ + NC@,
        "    "@ + GREEN@ + "create"@ + NC@ + "  (c)      "@ + m.help_create_desc@,
        "    "@ + GREEN@ + "list"@ + NC@ + "    (l, ls)  "@ + m.help_list_desc@,
        "    "@ + GREEN@ + "remove"@ + NC@ + "  (rm)     "@ + m.help_remove_desc@,
        "    "@ + GREEN@ + "switch"@ + NC@ + "  (s)      "@ + m.help_switch_desc@,
        "    "@ + GREEN@ + "settings"@ + NC@ + "         "@ + m.help_settings_desc@,
        "    "@ + GREEN@ + "help"@ + NC@ + "    (-h)     "@ + m.help_help_desc@,
        Seq::<char>::empty(),
        BOLD@ + m.help_examples@ + ":"@ + NC@,
        "    shuu                      # "@ + m.menu_title@,
        "    shuu create               # "@ + m.help_create_desc@,
        "    shuu \"implement auth\"     # "@ + m.help_direct_desc@,
        "    shuu ls                   # "@ + m.help_list_desc@,
        "    shuu s                    # "@ + m.help_switch_desc@,
        "    shuu rm                   # "@ + m.help_remove_desc@,
        Seq::<char>::empty(),
        BOLD@ + m.help_notes@ + ":"@ + NC@,
        "    "@ + m.help_note_path@,
        "    "@ + m.help_note_switch@,
        Seq::<char>::empty(),
    ]
}

/// What the help says, line by line.
pub fn help_lines_of(m: &Messages) -> (lines: Vec<String>)
    ensures
        views(lines@) == help_lines(*m),
{
    let mut lines: Vec<String> = Vec::new();
    push_text(&mut lines, String::new());
    {
        let mut line = String::from_str(BOLD);
        line.append("shuu");
        line.append(NC);
        line.append(" - Git Worktree Manager v");
        line.append(VERSION);
        push_text(&mut lines, line);
    }
    push_text(&mut lines, String::new());
    {
        let mut line = String::from_str(BOLD);
        line.append(m.help_usage);
        line.append(":");
        line.append(NC);
        push_text(&mut lines, line);
    }
    {
        let mut line = String::from_str("    shuu <command>");
        push_text(&mut lines, line);
    }
    {
        let mut line = String::from_str("    shuu \"<description>\"       ");
        line.append(m.help_direct_desc);
        push_text(&mut lines, line);
    }
    push_text(&mut lines, String::new());
    {
        let mut line = String::from_str(BOLD);
        line.append(m.help_commands);
        line.append(":");
        line.append(NC);
        push_text(&mut lines, line);
    }
    {
        let mut line = String::from_str("    ");
        line.append(GREEN);
        line.append("create");
        line.append(NC);
        line.append("  (c)      ");
        line.append(m.help_create_desc);
        push_text(&mut lines, line);
    }
    {
        let mut line = String::from_str("    ");
        line.append(GREEN);
        line.append("list");
        line.append(NC);
        line.append("    (l, ls)  ");
        line.append(m.help_list_desc);
        push_text(&mut lines, line);
    }
    {
        let mut line = String::from_str("    ");
        line.append(GREEN);
        line.append("remove");
        line.append(NC);
        line.append("  (rm)     ");
        line.append(m.help_remove_desc);
        push_text(&mut lines, line);
    }
    {
        let mut line = String::from_str("    ");
        line.append(GREEN);
        line.append("switch");
        line.append(NC);
        line.append("  (s)      ");
        line.append(m.help_switch_desc);
        push_text(&mut lines, line);
    }
    {
        let mut line = String::from_str("    ");
        line.append(GREEN);
        line.append("settings");
        line.append(NC);
        line.append("         ");
        line.append(m.help_settings_desc);
        push_text(&mut lines, line);
    }
    {
        let mut line = String::from_str("    ");
        line.append(GREEN);
        line.append("help");
        line.append(NC);
        line.append("    (-h)     ");
        line.append(m.help_help_desc);
        push_text(&mut lines, line);
    }
    push_text(&mut lines, String::new());
    {
        let mut line = String::from_str(BOLD);
        line.append(m.help_examples);
        line.append(":");
        line.append(NC);
        push_text(&mut lines, line);
    }
    {
        let mut line = String::from_str("    shuu                      # ");
        line.append(m.menu_title);
        push_text(&mut lines, line);
    }
    {
        let mut line = String::from_str("    shuu create               # ");
        line.append(m.help_create_desc);
        push_text(&mut lines, line);
    }
    {
        let mut line = String::from_str("    shuu \"implement auth\"     # ");
        line.append(m.help_direct_desc);
        push_text(&mut lines, line);
    }
    {
        let mut line = String::from_str("    shuu ls                   # ");
        line.append(m.help_list_desc);
        push_text(&mut lines, line);
    }
    {
        let mut line = String::from_str("    shuu s                    # ");
        line.append(m.help_switch_desc);
        push_text(&mut lines, line);
    }
    {
        let mut line = String::from_str("    shuu rm                   # ");
        line.append(m.help_remove_desc);
        push_text(&mut lines, line);
    }
    push_text(&mut lines, String::new());
    {
        let mut line = String::from_str(BOLD);
        line.append(m.help_notes);
        line.append(":");
        line.append(NC);
        push_text(&mut lines, line);
    }
    {
        let mut line = String::from_str("    ");
        line.append(m.help_note_path);
        push_text(&mut lines, line);
    }
    {
        let mut line = String::from_str("    ");
        line.append(m.help_note_switch);
        push_text(&mut lines, line);
    }
    push_text(&mut lines, String::new());
    lines
}

/// Shows the help: one step, which says it all.
pub fn cmd_help(app: &App) -> (step: Step)
    ensures
        step@ == (StepView { acts: said(help_lines(app.messages)), request: RequestView::Done }),
{
    Step { acts: say_all(help_lines_of(&app.messages)), request: Request::Done }
}

/// The banner: the program's name and version, and beside a small tree the
/// model in force, the repository with its current branch, and the number
/// of worktrees.
pub open spec fn banner_lines(
    model: Seq<char>,
    repo: Seq<char>,
    branch: Seq<char>,
    trees: Seq<char>,
) -> Seq<Seq<char>> {
    seq![
        Seq::<char>::empty(),
        "  "@ + DIM@ + "--"@ + NC@ + " "@ + YELLOW@ + BOLD@ + "shuu"@ + NC@ + " "@ + DIM@ + "v"@
            + VERSION@ + " ------------------------------------"@ + NC@,
        Seq::<char>::empty(),
        "  "@ + GREEN@ + "      /\\"@ + NC@ + "           "@ + BOLD@ + "Git Worktree Manager"@
            + NC@,
        "  "@ + GREEN@ + "     /  \\"@ + NC@,
        "  "@ + GREEN@ + "    /    \\"@ + NC@ + "         "@ + DIM@ + "Model  "@ + NC@ + " "@
            + model,
        "  "@ + GREEN@ + "   /______\\"@ + NC@ + "        "@ + DIM@ + "Repo   "@ + NC@ + " "@
            + repo + " "@ + DIM@ + "("@ + branch + ")"@ + NC@,
        "  "@ + GREEN@ + "      ||"@ + NC@ + "           "@ + DIM@ + "Trees  "@ + NC@ + " "@
            + trees,
        Seq::<char>::empty(),
        "  "@ + DIM@ + "----------------------------------------------"@ + NC@,
    ]
}

/// The lines of the banner.
pub fn show_banner(model: &str, repo: &str, branch: &str, trees: &str) -> (lines: Vec<String>)
    ensures
        views(lines@) == banner_lines(model@, repo@, branch@, trees@),
{
    let mut lines: Vec<String> = Vec::new();
    push_text(&mut lines, String::new());
    {
        let mut line = String::from_str("  ");
        line.append(DIM);
        line.append("--");
        line.append(NC);
        line.append(" ");
        line.append(YELLOW);
        line.append(BOLD);
        line.append("shuu");
        line.append(NC);
        line.append(" ");
        line.append(DIM);
        line.append("v");
        line.append(VERSION);
        line.append(" ------------------------------------");
        line.append(NC);
        push_text(&mut lines, line);
    }
    push_text(&mut lines, String::new());
    {
        let mut line = String::from_str("  ");
        line.append(GREEN);
        line.append("      /\\");
        line.append(NC);
        line.append("           ");
        line.append(BOLD);
        line.append("Git Worktree Manager");
        line.append(NC);
        push_text(&mut lines, line);
    }
    {
        let mut line = String::from_str("  ");
        line.append(GREEN);
        line.append("     /  \\");
        line.append(NC);
        push_text(&mut lines, line);
    }
    {
        let mut line = String::from_str("  ");
        line.append(GREEN);
        line.append("    /    \\");
        line.append(NC);
        line.append("         ");
        line.append(DIM);
        line.append("Model  ");
        line.append(NC);
        line.append(" ");
        line.append(model);
        push_text(&mut lines, line);
    }
    {
        let mut line = String::from_str("  ");
        line.append(GREEN);
        line.append("   /______\\");
        line.append(NC);
        line.append("        ");
        line.append(DIM);
        line.append("Repo   ");
        line.append(NC);
        line.append(" ");
        line.append(repo);
        line.append(" ");
        line.append(DIM);
        line.append("(");
        line.append(branch);
        line.append(")");
        line.append(NC);
        push_text(&mut lines, line);
    }
    {
        let mut line = String::from_str("  ");
        line.append(GREEN);
        line.append("      ||");
        line.append(NC);
        line.append("           ");
        line.append(DIM);
        line.append("Trees  ");
        line.append(NC);
        line.append(" ");
        line.append(trees);
        push_text(&mut lines, line);
    }
    push_text(&mut lines, String::new());
    {
        let mut line = String::from_str("  ");
        line.append(DIM);
        line.append("----------------------------------------------");
        line.append(NC);
        push_text(&mut lines, line);
    }
    lines
}

/// Where the interactive start stands.
#[derive(Clone, Debug, PartialEq, Eq)]
pub enum InteractiveState {
    Start,
    /// Asked for the saved model.
    LoadingModel,
    /// Asked whether this is a repository; the model to show is known.
    CheckingRepo { model: String },
    /// Asked for the repository's top directory.
    AskingTopLevel { model: String },
    /// Asked for the current branch; the repository's name is known.
    AskingBranch { model: String, repo: String },
    /// Asked for the worktrees; the branch is known too.
    Counting { model: String, repo: String, branch: String },
    /// Showed the banner and offered the commands.
    Choosing,
    Finished,
}

/// An `InteractiveState` as plain text.
pub enum InteractiveView {
    Start,
    LoadingModel,
    CheckingRepo { model: Seq<char> },
    AskingTopLevel { model: Seq<char> },
    AskingBranch { model: Seq<char>, repo: Seq<char> },
    Counting { model: Seq<char>, repo: Seq<char>, branch: Seq<char> },
    Choosing,
    Finished,
}

impl View for InteractiveState {
    type V = InteractiveView;

    open spec fn view(&self) -> InteractiveView {
        match self {
            InteractiveState::Start => InteractiveView::Start,
            InteractiveState::LoadingModel => InteractiveView::LoadingModel,
            InteractiveState::CheckingRepo { model } => InteractiveView::CheckingRepo {
                model: model@,
            },
            InteractiveState::AskingTopLevel { model } => InteractiveView::AskingTopLevel {
                model: model@,
            },
            InteractiveState::AskingBranch { model, repo } => InteractiveView::AskingBranch {
                model: model@,
                repo: repo@,
            },
            InteractiveState::Counting { model, repo, branch } => InteractiveView::Counting {
                model: model@,
                repo: repo@,
                branch: branch@,
            },
            InteractiveState::Choosing => InteractiveView::Choosing,
            InteractiveState::Finished => InteractiveView::Finished,
        }
    }
}

/// `name`, or a hyphen where there is none.
pub open spec fn or_hyphen(name: Option<Seq<char>>) -> Seq<char> {
    match name {
        Some(name) => name,
        None => "-"@,
    }
}

/// The command behind each entry of the menu of commands.
pub open spec fn command_at(index: int) -> Option<CommandView> {
    if index == 0 {
        Some(CommandView::Create(Seq::empty()))
    } else if index == 1 {
        Some(CommandView::List)
    } else if index == 2 {
        Some(CommandView::Remove)
    } else if index == 3 {
        Some(CommandView::Switch)
    } else if index == 4 {
        Some(CommandView::Settings)
    } else if index == 5 {
        Some(CommandView::Help)
    } else {
        None
    }
}

/// The banner, and below it the menu of commands.
pub open spec fn welcome(
    m: Messages,
    model: Seq<char>,
    repo: Seq<char>,
    branch: Seq<char>,
    trees: Seq<char>,
) -> (InteractiveView, StepView) {
    (
        InteractiveView::Choosing,
        StepView {
            acts: said(banner_lines(model, repo, branch, trees)),
            request: RequestView::Select(
                MenuSpecView {
                    title: m.menu_title@,
                    items: seq![
                        m.menu_create@,
                        m.menu_list@,
                        m.menu_remove@,
                        m.menu_switch@,
                        m.menu_settings@,
                        m.menu_help@,
                    ],
                    hint: m.menu_hint@,
                },
            ),
        },
    )
}

/// The next state and step of the interactive start.
///
/// It gathers what the banner shows, shows it, offers the commands, and
/// ends by naming the command to run; a cancelled menu ends it quietly. A
/// reply that the state does not expect ends it in failure.
pub open spec fn interactive_step(
    m: Messages,
    config_dir: Seq<char>,
    state: InteractiveView,
    reply: ReplyView,
) -> (InteractiveView, StepView) {
    match (state, reply) {
        (InteractiveView::Start, ReplyView::Start) => (
            InteractiveView::LoadingModel,
            just(RequestView::ReadFile(joined(config_dir, "model"@))),
        ),
        (InteractiveView::LoadingModel, ReplyView::Output(content)) => (
            InteractiveView::CheckingRepo {
                model: match saved_model(content) {
                    Some(model) => model,
                    None => m.model_none@,
                },
            },
            just(RequestView::IsRepo),
        ),
        (InteractiveView::CheckingRepo { model }, ReplyView::Status(is_repo)) => if is_repo {
            (InteractiveView::AskingTopLevel { model }, just(RequestView::TopLevel))
        } else {
            welcome(m, model, "-"@, "-"@, "-"@)
        },
        (InteractiveView::AskingTopLevel { model }, ReplyView::Output(output)) => (
            InteractiveView::AskingBranch { model, repo: or_hyphen(repo_name_of(output)) },
            just(RequestView::CurrentBranch),
        ),
        (InteractiveView::AskingBranch { model, repo }, ReplyView::Output(output)) => (
            InteractiveView::Counting { model, repo, branch: or_hyphen(current_branch_of(output)) },
            just(RequestView::ListWorktrees),
        ),
        (InteractiveView::Counting { model, repo, branch }, ReplyView::Output(output)) => welcome(
            m,
            model,
            repo,
            branch,
            decimal(listed(output).len()),
        ),
        (InteractiveView::Choosing, ReplyView::Selected(choice)) => match choice {
            Some(index) => match command_at(index as int) {
                Some(command) => (InteractiveView::Finished, just(RequestView::Run(command))),
                None => (InteractiveView::Finished, just(RequestView::Done)),
            },
            None => (InteractiveView::Finished, just(RequestView::Done)),
        },
        _ => (InteractiveView::Finished, failure()),
    }
}

fn welcome_step(m: &Messages, model: &str, repo: &str, branch: &str, trees: &str) -> (next: (
    InteractiveState,
    Step,
))
    ensures
        (next.0@, next.1@) == welcome(*m, model@, repo@, branch@, trees@),
{
    let mut items: Vec<String> = Vec::new();
    push_text(&mut items, String::from_str(m.menu_create));
    push_text(&mut items, String::from_str(m.menu_list));
    push_text(&mut items, String::from_str(m.menu_remove));
    push_text(&mut items, String::from_str(m.menu_switch));
    push_text(&mut items, String::from_str(m.menu_settings));
    push_text(&mut items, String::from_str(m.menu_help));
    assert(views(items@) == seq![
        m.menu_create@,
        m.menu_list@,
        m.menu_remove@,
        m.menu_switch@,
        m.menu_settings@,
        m.menu_help@,
    ]);
    let menu = MenuSpec {
        title: String::from_str(m.menu_title),
        items,
        hint: String::from_str(m.menu_hint),
    };
    let acts = say_all(show_banner(model, repo, branch, trees));
    (InteractiveState::Choosing, Step { acts, request: Request::Select(menu) })
}

/// `name`, or a hyphen where there is none.
fn name_or_hyphen(name: Option<String>) -> (shown: String)
    ensures
        shown@ == or_hyphen(opt_view(name)),
{
    match name {
        Some(name) => name,
        None => String::from_str("-"),
    }
}

/// The command behind an entry of the menu of commands.
pub fn command_of_entry(index: usize) -> (command: Option<Command>)
    ensures
        match command {
            Some(command) => command_at(index as int) == Some(command@),
            None => command_at(index as int) is None,
        },
{
    if index == 0 {
        Some(Command::Create(String::new()))
    } else if index == 1 {
        Some(Command::List)
    } else if index == 2 {
        Some(Command::Remove)
    } else if index == 3 {
        Some(Command::Switch)
    } else if index == 4 {
        Some(Command::Settings)
    } else if index == 5 {
        Some(Command::Help)
    } else {
        None
    }
}

/// Takes the interactive start one step on: from `state` and the answer
/// to the request before, to the next state and what to do now. It begins
/// in `InteractiveState::Start` with `Reply::Start`.
pub fn cmd_interactive(app: &App, state: InteractiveState, reply: Reply) -> (next: (
    InteractiveState,
    Step,
))
    ensures
        (next.0@, next.1@) == interactive_step(app.messages, app.config_dir@, state@, reply@),
{
    let m = &app.messages;
    match (state, reply) {
        (InteractiveState::Start, Reply::Start) => (
            InteractiveState::LoadingModel,
            Step::just(Request::ReadFile(model_file(app.config_dir.as_str()))),
        ),
        (InteractiveState::LoadingModel, Reply::Output(content)) => {
            let model = match get_model(content) {
                Some(model) => model,
                None => String::from_str(m.model_none),
            };
            (InteractiveState::CheckingRepo { model }, Step::just(is_git_repo()))
        },
        (InteractiveState::CheckingRepo { model }, Reply::Status(is_repo)) => {
            if is_repo {
                (InteractiveState::AskingTopLevel { model }, Step::just(Request::TopLevel))
            } else {
                welcome_step(m, model.as_str(), "-", "-", "-")
            }
        },
        (InteractiveState::AskingTopLevel { model }, Reply::Output(output)) => {
            let repo = match &output {
                Some(text) => name_or_hyphen(repo_name(Some(text.as_str()))),
                None => name_or_hyphen(repo_name(None)),
            };
            (InteractiveState::AskingBranch { model, repo }, Step::just(Request::CurrentBranch))
        },
        (InteractiveState::AskingBranch { model, repo }, Reply::Output(output)) => {
            let branch = match &output {
                Some(text) => name_or_hyphen(current_branch(Some(text.as_str()))),
                None => name_or_hyphen(current_branch(None)),
            };
            (
                InteractiveState::Counting { model, repo, branch },
                Step::just(Request::ListWorktrees),
            )
        },
        (InteractiveState::Counting { model, repo, branch }, Reply::Output(output)) => {
            let list = match &output {
                Some(text) => worktree_list(Some(text.as_str())),
                None => worktree_list(None),
            };
            let mut trees = String::new();
            push_decimal(&mut trees, list.len());
            welcome_step(m, model.as_str(), repo.as_str(), branch.as_str(), trees.as_str())
        },
        (InteractiveState::Choosing, Reply::Selected(choice)) => {
            match choice {
                Some(index) => match command_of_entry(index) {
                    Some(command) => (
                        InteractiveState::Finished,
                        Step::just(Request::Run(command)),
                    ),
                    None => (InteractiveState::Finished, Step::just(Request::Done)),
                },
                None => (InteractiveState::Finished, Step::just(Request::Done)),
            }
        },
        _ => (InteractiveState::Finished, Step::failure()),
    }
}

} // verus!
