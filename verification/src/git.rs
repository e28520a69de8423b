//! Worktree records as the version-control tool lists them, and the place
//! where a repository's worktrees are kept.

use crate::text::{
    chars_of, lemma_last_piece, opt_view, pieces, slice_string, split, split_whitespace, strip,
    trim, trim_matches, views, words, CharClass,
};
use crate::flow::{Request, RequestView};
use vstd::prelude::*;
use vstd::string::*;

verus! {

/// One worktree, as listed: where it is, the commit it stands on, and its branch.
#[derive(Clone, Debug, PartialEq, Eq)]
pub struct Worktree {
    pub path: String,
    pub hash: String,
    pub branch: String,
}

/// A `Worktree` as plain text.
pub struct WorktreeView {
    pub path: Seq<char>,
    pub hash: Seq<char>,
    pub branch: Seq<char>,
}

impl View for Worktree {
    type V = WorktreeView;

    open spec fn view(&self) -> WorktreeView {
        WorktreeView { path: self.path@, hash: self.hash@, branch: self.branch@ }
    }
}

impl Worktree {
    /// A copy of the record.
    pub fn duplicate(&self) -> (copy: Worktree)
        ensures
            copy@ == self@,
    {
        Worktree { path: self.path.clone(), hash: self.hash.clone(), branch: self.branch.clone() }
    }
}

/// The views of a list of records.
pub open spec fn record_views(list: Seq<Worktree>) -> Seq<WorktreeView> {
    list.map_values(|w: Worktree| w@)
}

/// The view of a record that may be missing.
pub open spec fn opt_record(w: Option<Worktree>) -> Option<WorktreeView> {
    match w {
        Some(w) => Some(w@),
        None => None,
    }
}

/// What one line of the listing says: its first three words are the path,
/// the commit and the branch, the branch without the square brackets round
/// it. A line of fewer than three words says nothing.
pub open spec fn parse_line(line: Seq<char>) -> Option<WorktreeView> {
    let w = words(line);
    if w.len() >= 3 {
        Some(WorktreeView { path: w[0], hash: w[1], branch: strip(w[2], CharClass::Bracket) })
    } else {
        None
    }
}

/// Reads one line of the listing.
pub fn parse_worktree_line(line: &str) -> (record: Option<Worktree>)
    ensures
        opt_record(record) == parse_line(line@),
{
    let parts = split_whitespace(line);
    if parts.len() >= 3 {
        Some(
            Worktree {
                path: parts[0].clone(),
                hash: parts[1].clone(),
                branch: trim_matches(parts[2].as_str(), CharClass::Bracket),
            },
        )
    } else {
        None
    }
}

/// The records that `lines` hold, in order; lines that say nothing are left out.
pub open spec fn parse_lines(lines: Seq<Seq<char>>) -> Seq<WorktreeView>
    decreases lines.len(),
{
    if lines.len() == 0 {
        Seq::empty()
    } else {
        match parse_line(lines.last()) {
            Some(record) => parse_lines(lines.drop_last()).push(record),
            None => parse_lines(lines.drop_last()),
        }
    }
}

/// The records of a listing. A listing that could not be had holds none.
pub open spec fn listed(output: Option<Seq<char>>) -> Seq<WorktreeView> {
    match output {
        Some(text) => parse_lines(pieces(text, CharClass::Only('\n'))),
        None => Seq::empty(),
    }
}

/// Reads the listing of all worktrees; `output` is what the tool printed,
/// or nothing if it failed. The first record is the main worktree.
pub fn worktree_list(output: Option<&str>) -> (list: Vec<Worktree>)
    ensures
        record_views(list@) == listed(
            match output {
                Some(text) => Some(text@),
                None => None,
            },
        ),
{
    let mut list: Vec<Worktree> = Vec::new();
    let text = match output {
        Some(text) => text,
        None => {
            return list;
        },
    };
    let lines = split(text, CharClass::Only('\n'));
    let mut i: usize = 0;
    while i < lines.len()
        invariant
            i <= lines.len(),
            record_views(list@) == parse_lines(views(lines@).take(i as int)),
        decreases lines.len() - i,
    {
        proof {
            assert(views(lines@).take(i + 1).drop_last() == views(lines@).take(i as int));
        }
        match parse_worktree_line(lines[i].as_str()) {
            Some(record) => {
                list.push(record);
            },
            None => {},
        }
        i += 1;
    }
    assert(views(lines@).take(lines.len() as int) == views(lines@));
    list
}

/// The path of the main worktree: that of the first record.
pub open spec fn main_path(list: Seq<WorktreeView>) -> Option<Seq<char>> {
    if list.len() > 0 {
        Some(list[0].path)
    } else {
        None
    }
}

/// The path of the main worktree, if any worktree is listed.
pub fn main_worktree(list: &Vec<Worktree>) -> (path: Option<String>)
    ensures
        opt_view(path) == main_path(record_views(list@)),
{
    if list.len() > 0 {
        Some(list[0].path.clone())
    } else {
        None
    }
}

/// How much of a path stands before its components: the root `/`, or the
/// `.` that a relative path may begin with.
///
/// Paths are read by the rules of Unix: the slash `/` is the only
/// separator, and no prefix such as a drive letter is told apart.
pub open spec fn head_len(path: Seq<char>) -> nat {
    if path.len() > 0 && path[0] == '/' {
        1
    } else if path.len() > 0 && path[0] == '.' && (path.len() == 1 || path[1] == '/') {
        1
    } else {
        0
    }
}

/// What follows the last slash of `body`, or all of it.
pub open spec fn last_piece(body: Seq<char>) -> Seq<char> {
    pieces(body, CharClass::Only('/')).last()
}

/// `body` without its last piece and the slash before that.
pub open spec fn before_last_piece(body: Seq<char>) -> Seq<char> {
    if last_piece(body).len() < body.len() {
        body.take(body.len() - last_piece(body).len() - 1)
    } else {
        Seq::empty()
    }
}

/// A piece that names nothing: the empty piece between two slashes, and `.`.
pub open spec fn is_blank(piece: Seq<char>) -> bool {
    piece.len() == 0 || piece == seq!['.']
}

/// `body` without the blank pieces at its end.
pub open spec fn trim_blank(body: Seq<char>) -> Seq<char>
    decreases body.len(),
{
    if body.len() > 0 && is_blank(last_piece(body)) {
        trim_blank(before_last_piece(body))
    } else {
        body
    }
}

/// The components of `path`, without blank pieces at the end.
pub open spec fn path_body(path: Seq<char>) -> Seq<char> {
    trim_blank(path.skip(head_len(path) as int))
}

/// The file name of a path: its last component, unless there is none or it
/// is `..`. The slash `/` is the only separator, and no prefix such as a
/// drive letter is told apart.
pub open spec fn file_name(path: Seq<char>) -> Option<Seq<char>> {
    let body = path_body(path);
    if body.len() == 0 || last_piece(body) == seq!['.', '.'] {
        None
    } else {
        Some(last_piece(body))
    }
}

/// The parent of a path that has a file name: the path without its last
/// component and without what separated the two. The slash `/` is the
/// only separator, and no prefix such as a drive letter is told apart.
pub open spec fn parent(path: Seq<char>) -> Seq<char> {
    path.take(head_len(path) as int) + trim_blank(before_last_piece(path_body(path)))
}

/// The directory that holds the worktrees of the repository whose main
/// worktree is at `main`: beside the main worktree, named after it. The
/// path is read by the rules of Unix, with `/` as the only separator.
pub open spec fn worktrees_dir_of(main: Seq<char>) -> Option<Seq<char>> {
    match file_name(main) {
        Some(name) => Some(parent(main) + "/"@ + name + "-worktrees"@),
        None => None,
    }
}

fn head_of(v: &Vec<char>) -> (head: usize)
    ensures
        head == head_len(v@),
        head <= v.len(),
{
    if v.len() > 0 && v[0] == '/' {
        1
    } else if v.len() > 0 && v[0] == '.' && (v.len() == 1 || v[1] == '/') {
        1
    } else {
        0
    }
}

/// The end of what stands before the last piece of `v[head..end]`.
spec fn cut_before(head: int, start: int) -> int {
    if start > head {
        start - 1
    } else {
        head
    }
}

/// Where the last piece of `v[head..end]` begins.
fn piece_start(v: &Vec<char>, head: usize, end: usize) -> (start: usize)
    requires
        head <= end <= v.len(),
    ensures
        head <= start <= end,
        last_piece(v@.subrange(head as int, end as int)) == v@.subrange(start as int, end as int),
        before_last_piece(v@.subrange(head as int, end as int)) == v@.subrange(
            head as int,
            cut_before(head as int, start as int),
        ),
{
    let mut start: usize = end;
    while start > head && v[start - 1] != '/'
        invariant
            head <= start <= end <= v.len(),
            forall|i: int| start <= i < end ==> v@[i] != '/',
        decreases start,
    {
        start -= 1;
    }
    proof {
        let body = v@.subrange(head as int, end as int);
        lemma_last_piece(body, CharClass::Only('/'), start - head);
    }
    start
}

/// Where `v[head..end]` ends once the blank pieces at its end are gone.
fn trim_blank_end(v: &Vec<char>, head: usize, end: usize) -> (cut: usize)
    requires
        head <= end <= v.len(),
    ensures
        head <= cut <= end,
        trim_blank(v@.subrange(head as int, end as int)) == v@.subrange(head as int, cut as int),
{
    let mut cut: usize = end;
    while cut > head
        invariant
            head <= cut <= end <= v.len(),
            trim_blank(v@.subrange(head as int, end as int)) == trim_blank(
                v@.subrange(head as int, cut as int),
            ),
        decreases cut,
    {
        let start = piece_start(v, head, cut);
        let blank = start == cut || (cut - start == 1 && v[start] == '.');
        proof {
            let piece = v@.subrange(start as int, cut as int);
            if cut - start == 1 && v[start as int] == '.' {
                assert(piece == seq!['.']);
            }
            if piece == seq!['.'] {
                assert(piece[0] == '.');
            }
        }
        if !blank {
            return cut;
        }
        cut = if start > head {
            start - 1
        } else {
            head
        };
    }
    cut
}

/// Where the file name of the path `v` begins and ends; none where it has
/// no file name.
fn name_bounds(v: &Vec<char>) -> (bounds: Option<(usize, usize)>)
    ensures
        match bounds {
            Some((start, end)) => {
                &&& head_len(v@) <= start <= end <= v.len()
                &&& file_name(v@) == Some(v@.subrange(start as int, end as int))
                &&& before_last_piece(path_body(v@)) == v@.subrange(
                    head_len(v@) as int,
                    cut_before(head_len(v@) as int, start as int),
                )
            },
            None => file_name(v@) is None,
        },
{
    let head = head_of(v);
    let end = trim_blank_end(v, head, v.len());
    assert(v@.skip(head as int) == v@.subrange(head as int, v.len() as int));
    if end == head {
        return None;
    }
    let start = piece_start(v, head, end);
    let dots = end - start == 2 && v[start] == '.' && v[start + 1] == '.';
    proof {
        let piece = v@.subrange(start as int, end as int);
        if dots {
            assert(piece == seq!['.', '.']);
        }
        if piece == seq!['.', '.'] {
            assert(piece.len() == 2 && piece[0] == '.' && piece[1] == '.');
        }
    }
    if dots {
        None
    } else {
        Some((start, end))
    }
}

/// The directory that holds the worktrees of the repository whose main
/// worktree is at `main_path`; none where that path names no directory.
pub fn compute_worktrees_dir(main_path: &str) -> (dir: Option<String>)
    ensures
        opt_view(dir) == worktrees_dir_of(main_path@),
{
    let v = chars_of(main_path);
    match name_bounds(&v) {
        Some((start, end)) => {
            let head = head_of(&v);
            let cut = if start > head {
                start - 1
            } else {
                head
            };
            let upto = trim_blank_end(&v, head, cut);
            assert(v@.subrange(0, upto as int) == v@.take(head as int) + v@.subrange(
                head as int,
                upto as int,
            ));
            let mut dir = slice_string(&v, 0, upto);
            dir.append("/");
            let name = slice_string(&v, start, end);
            dir.append(name.as_str());
            dir.append("-worktrees");
            Some(dir)
        },
        None => None,
    }
}

/// The file name of `path`, if it has one.
pub fn file_name_of(path: &str) -> (name: Option<String>)
    ensures
        opt_view(name) == file_name(path@),
{
    let v = chars_of(path);
    match name_bounds(&v) {
        Some((start, end)) => Some(slice_string(&v, start, end)),
        None => None,
    }
}

/// The name of the repository, given what the tool printed as its top
/// directory, or nothing if it failed: the file name of that directory.
pub open spec fn repo_name_of(output: Option<Seq<char>>) -> Option<Seq<char>> {
    match output {
        Some(text) => file_name(strip(text, CharClass::Space)),
        None => None,
    }
}

/// The name of the repository, given what the tool printed as its top
/// directory, or nothing if it failed.
pub fn repo_name(output: Option<&str>) -> (name: Option<String>)
    ensures
        opt_view(name) == repo_name_of(
            match output {
                Some(text) => Some(text@),
                None => None,
            },
        ),
{
    match output {
        Some(text) => {
            let top = trim(text);
            file_name_of(top.as_str())
        },
        None => None,
    }
}

/// The current branch, given what the tool printed for it, or nothing if
/// it failed: that text without the white space round it, unless it is empty.
pub open spec fn current_branch_of(output: Option<Seq<char>>) -> Option<Seq<char>> {
    match output {
        Some(text) => if strip(text, CharClass::Space).len() > 0 {
            Some(strip(text, CharClass::Space))
        } else {
            None
        },
        None => None,
    }
}

/// The current branch, given what the tool printed for it, or nothing if
/// it failed.
pub fn current_branch(output: Option<&str>) -> (name: Option<String>)
    ensures
        opt_view(name) == current_branch_of(
            match output {
                Some(text) => Some(text@),
                None => None,
            },
        ),
{
    match output {
        Some(text) => {
            let branch = trim(text);
            if branch.as_str().is_empty() {
                None
            } else {
                Some(branch)
            }
        },
        None => None,
    }
}

/// The request that asks the tool whether this is a repository.
pub fn is_git_repo() -> (request: Request)
    ensures
        request@ == RequestView::IsRepo,
{
    Request::IsRepo
}

/// The request that has the tool remove the worktree at `path`, if it can
/// do so safely.
pub fn worktree_remove(path: &str) -> (request: Request)
    ensures
        request@ == (RequestView::RemoveWorktree { path: path@, force: false }),
{
    Request::RemoveWorktree { path: String::from_str(path), force: false }
}

/// The request that has the tool remove the worktree at `path` by force.
pub fn worktree_force_remove(path: &str) -> (request: Request)
    ensures
        request@ == (RequestView::RemoveWorktree { path: path@, force: true }),
{
    Request::RemoveWorktree { path: String::from_str(path), force: true }
}

/// The request that has the tool delete `branch`, if it is merged.
pub fn branch_delete(branch: &str) -> (request: Request)
    ensures
        request@ == (RequestView::DeleteBranch { name: branch@, force: false }),
{
    Request::DeleteBranch { name: String::from_str(branch), force: false }
}

/// The request that has the tool delete `branch`, merged or not.
pub fn branch_force_delete(branch: &str) -> (request: Request)
    ensures
        request@ == (RequestView::DeleteBranch { name: branch@, force: true }),
{
    Request::DeleteBranch { name: String::from_str(branch), force: true }
}

/// One of the two ways to add a worktree.
#[derive(Clone, Copy, Debug, PartialEq, Eq)]
pub enum AddAttempt {
    /// On a branch that is created with it.
    NewBranch,
    /// On a branch that exists already.
    ExistingBranch,
}

/// Where the adding of a worktree stands.
#[derive(Clone, Debug, PartialEq, Eq)]
pub enum AddStep {
    /// This is to be asked of the tool next.
    Try(Request),
    /// The worktree was added, in this way.
    Added(AddAttempt),
    /// It could be added in neither way.
    Failed,
}

/// An `AddStep` as plain text.
pub enum AddStepView {
    Try(RequestView),
    Added(AddAttempt),
    Failed,
}

impl View for AddStep {
    type V = AddStepView;

    open spec fn view(&self) -> AddStepView {
        match self {
            AddStep::Try(request) => AddStepView::Try(request@),
            AddStep::Added(attempt) => AddStepView::Added(*attempt),
            AddStep::Failed => AddStepView::Failed,
        }
    }
}

/// How a worktree is added at `path` on `branch`: first with a new branch;
/// if that fails, with the branch taken as existing; if that fails too,
/// not at all. `last` is the attempt made last and whether it succeeded,
/// or nothing before the first.
pub open spec fn add_step(path: Seq<char>, branch: Seq<char>, last: Option<(AddAttempt, bool)>)
    -> AddStepView {
    match last {
        None => AddStepView::Try(RequestView::AddWorktree { path, branch, new_branch: true }),
        Some((attempt, true)) => AddStepView::Added(attempt),
        Some((AddAttempt::NewBranch, false)) => AddStepView::Try(
            RequestView::AddWorktree { path, branch, new_branch: false },
        ),
        Some((AddAttempt::ExistingBranch, false)) => AddStepView::Failed,
    }
}

/// Adds a worktree at `path` on `branch`, one attempt at a time: says what
/// to ask of the tool next, or how it ended. `last` is the attempt made
/// last and whether it succeeded, or nothing before the first.
pub fn worktree_add(path: &str, branch: &str, last: Option<(AddAttempt, bool)>) -> (step: AddStep)
    ensures
        step@ == add_step(path@, branch@, last),
{
    match last {
        None => AddStep::Try(
            Request::AddWorktree {
                path: String::from_str(path),
                branch: String::from_str(branch),
                new_branch: true,
            },
        ),
        Some((attempt, true)) => AddStep::Added(attempt),
        Some((AddAttempt::NewBranch, false)) => AddStep::Try(
            Request::AddWorktree {
                path: String::from_str(path),
                branch: String::from_str(branch),
                new_branch: false,
            },
        ),
        Some((AddAttempt::ExistingBranch, false)) => AddStep::Failed,
    }
}

/// The directory that holds the worktrees of the repository whose
/// worktrees are `list`.
pub fn worktrees_dir(list: &Vec<Worktree>) -> (dir: Option<String>)
    ensures
        opt_view(dir) == match main_path(record_views(list@)) {
            Some(main) => worktrees_dir_of(main),
            None => None,
        },
{
    match main_worktree(list) {
        Some(main) => compute_worktrees_dir(main.as_str()),
        None => None,
    }
}

} // verus!
