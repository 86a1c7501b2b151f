//! The change set of the working tree, and the words exchanged with the
//! version-control program.

use crate::errors::GitCliError;
use crate::errors::GitCliErrorView;
use crate::text::decimal;
use crate::text::decimal_string;
use crate::text::lines;
use crate::text::split_lines;
use crate::text::starts_with;
use crate::text::trim;
use crate::text::trimmed;
use vstd::prelude::*;
use vstd::string::StrSliceExecFns;
use vstd::string::StringExecFns;

verus! {

/// What happened to a path.
#[derive(Debug, Clone, Copy, PartialEq, Eq, Structural)]
pub enum ChangeKind {
    Untracked,
    Added,
    Modified,
    Deleted,
    Renamed,
    Copied,
}

impl ChangeKind {
    /// The kind that the two status codes of a line stand for. Two question
    /// marks mean an untracked path. Otherwise the first of the letters
    /// `A`, `M`, `D`, `R`, `C` that stands in either place decides; with none
    /// of them the path counts as modified.
    pub open spec fn of_codes(index: char, tree: char) -> ChangeKind {
        if index == '?' && tree == '?' {
            ChangeKind::Untracked
        } else if index == 'A' || tree == 'A' {
            ChangeKind::Added
        } else if index == 'M' || tree == 'M' {
            ChangeKind::Modified
        } else if index == 'D' || tree == 'D' {
            ChangeKind::Deleted
        } else if index == 'R' || tree == 'R' {
            ChangeKind::Renamed
        } else if index == 'C' || tree == 'C' {
            ChangeKind::Copied
        } else {
            ChangeKind::Modified
        }
    }

    /// The kind that the two status codes of a line stand for.
    pub fn classify(index: char, tree: char) -> (kind: ChangeKind)
        ensures
            kind == ChangeKind::of_codes(index, tree),
    {
        if index == '?' && tree == '?' {
            ChangeKind::Untracked
        } else if index == 'A' || tree == 'A' {
            ChangeKind::Added
        } else if index == 'M' || tree == 'M' {
            ChangeKind::Modified
        } else if index == 'D' || tree == 'D' {
            ChangeKind::Deleted
        } else if index == 'R' || tree == 'R' {
            ChangeKind::Renamed
        } else if index == 'C' || tree == 'C' {
            ChangeKind::Copied
        } else {
            ChangeKind::Modified
        }
    }

    /// The word for this kind.
    pub open spec fn word(self) -> Seq<char> {
        match self {
            ChangeKind::Untracked => "Untracked"@,
            ChangeKind::Added => "Added"@,
            ChangeKind::Modified => "Modified"@,
            ChangeKind::Deleted => "Deleted"@,
            ChangeKind::Renamed => "Renamed"@,
            ChangeKind::Copied => "Copied"@,
        }
    }

    /// The escape sequence of the colour in which this kind is shown.
    pub open spec fn escape(self) -> Seq<char> {
        match self {
            ChangeKind::Untracked => "\x1b[0;35m"@,
            ChangeKind::Added => "\x1b[0;32m"@,
            ChangeKind::Modified => "\x1b[0;33m"@,
            ChangeKind::Deleted => "\x1b[0;31m"@,
            ChangeKind::Renamed => "\x1b[0;34m"@,
            ChangeKind::Copied => "\x1b[0;36m"@,
        }
    }

    /// The word for this kind.
    pub fn name(&self) -> (out: &'static str)
        ensures
            out@ == self.word(),
    {
        match self {
            ChangeKind::Untracked => "Untracked",
            ChangeKind::Added => "Added",
            ChangeKind::Modified => "Modified",
            ChangeKind::Deleted => "Deleted",
            ChangeKind::Renamed => "Renamed",
            ChangeKind::Copied => "Copied",
        }
    }

    /// The escape sequence of the colour in which this kind is shown.
    pub fn color(&self) -> (out: &'static str)
        ensures
            out@ == self.escape(),
    {
        match self {
            ChangeKind::Untracked => "\x1b[0;35m",
            ChangeKind::Added => "\x1b[0;32m",
            ChangeKind::Modified => "\x1b[0;33m",
            ChangeKind::Deleted => "\x1b[0;31m",
            ChangeKind::Renamed => "\x1b[0;34m",
            ChangeKind::Copied => "\x1b[0;36m",
        }
    }
}

/// Kind and colour go one to one: two kinds that are shown in the same
/// colour are the same kind.
pub proof fn lemma_colour_tells_the_kind(a: ChangeKind, b: ChangeKind)
    requires
        a.escape() == b.escape(),
    ensures
        a == b,
{
    reveal_strlit("\x1b[0;35m");
    reveal_strlit("\x1b[0;32m");
    reveal_strlit("\x1b[0;33m");
    reveal_strlit("\x1b[0;31m");
    reveal_strlit("\x1b[0;34m");
    reveal_strlit("\x1b[0;36m");
    assert(ChangeKind::Untracked.escape()[5] == '5');
    assert(ChangeKind::Added.escape()[5] == '2');
    assert(ChangeKind::Modified.escape()[5] == '3');
    assert(ChangeKind::Deleted.escape()[5] == '1');
    assert(ChangeKind::Renamed.escape()[5] == '4');
}

/// One changed path of the working tree.
#[derive(Debug)]
pub struct Change {
    pub kind: ChangeKind,
    pub path: String,
}

/// A change as contracts see it.
pub struct ChangeView {
    pub kind: ChangeKind,
    pub path: Seq<char>,
}

impl View for Change {
    type V = ChangeView;

    open spec fn view(&self) -> ChangeView {
        ChangeView { kind: self.kind, path: self.path@ }
    }
}

impl DeepView for Change {
    type V = ChangeView;

    open spec fn deep_view(&self) -> ChangeView {
        self@
    }
}

impl Clone for Change {
    fn clone(&self) -> (out: Change)
        ensures
            out@ == self@,
    {
        Change { kind: self.kind, path: self.path.clone() }
    }
}

impl ChangeView {
    /// How the change reads in a list: its kind in the kind's colour, then the path.
    pub open spec fn label(self) -> Seq<char> {
        self.kind.escape() + self.kind.word() + ": "@ + self.path + "\x1b[0m"@
    }
}

impl Change {
    /// The colour in which this change is shown. It follows from the kind alone.
    pub fn display_color(&self) -> (out: &'static str)
        ensures
            out@ == self.kind.escape(),
    {
        self.kind.color()
    }

    /// How the change reads in a list.
    pub fn label(&self) -> (out: String)
        ensures
            out@ == self@.label(),
    {
        String::from_str(self.kind.color()).concat(self.kind.name()).concat(": ").concat(
            self.path.as_str(),
        ).concat("\x1b[0m")
    }
}

/// The change that one status line tells of. A line of fewer than three
/// characters tells of none. The first two characters are the status codes,
/// the third separates, and the path is all that follows.
pub open spec fn change_of_line(line: Seq<char>) -> Option<ChangeView> {
    if line.len() < 3 {
        None
    } else {
        Some(ChangeView { kind: ChangeKind::of_codes(line[0], line[1]), path: line.skip(3) })
    }
}

/// The changes that status lines tell of, in the order of the lines.
pub open spec fn changes_of_lines(lines: Seq<Seq<char>>) -> Seq<ChangeView>
    decreases lines.len(),
{
    if lines.len() == 0 {
        Seq::empty()
    } else {
        let before = changes_of_lines(lines.drop_last());
        match change_of_line(lines.last()) {
            Some(change) => before.push(change),
            None => before,
        }
    }
}

/// A line whose two status codes are question marks tells of an untracked
/// path, whatever else it holds.
pub proof fn lemma_question_marks_mean_untracked(line: Seq<char>)
    requires
        line.len() >= 3,
        line[0] == '?',
        line[1] == '?',
    ensures
        change_of_line(line) == Some(ChangeView { kind: ChangeKind::Untracked, path: line.skip(3) }),
{
}

/// Among the status letters the order of precedence is `A`, `M`, `D`, `R`,
/// `C`: on a line that is not two question marks, a letter in either place
/// decides the kind unless a letter before it in that order stands in either
/// place too.
pub proof fn lemma_status_letter_precedence(line: Seq<char>)
    requires
        line.len() >= 3,
        !(line[0] == '?' && line[1] == '?'),
    ensures
        change_of_line(line) is Some,
        change_of_line(line).unwrap().path == line.skip(3),
        holds(line, 'A') ==> change_of_line(line).unwrap().kind == ChangeKind::Added,
        !holds(line, 'A') && holds(line, 'M') ==> change_of_line(line).unwrap().kind
            == ChangeKind::Modified,
        !holds(line, 'A') && !holds(line, 'M') && holds(line, 'D') ==> change_of_line(
            line,
        ).unwrap().kind == ChangeKind::Deleted,
        !holds(line, 'A') && !holds(line, 'M') && !holds(line, 'D') && holds(line, 'R')
            ==> change_of_line(line).unwrap().kind == ChangeKind::Renamed,
        !holds(line, 'A') && !holds(line, 'M') && !holds(line, 'D') && !holds(line, 'R') && holds(
            line,
            'C',
        ) ==> change_of_line(line).unwrap().kind == ChangeKind::Copied,
        !holds(line, 'A') && !holds(line, 'M') && !holds(line, 'D') && !holds(line, 'R') && !holds(
            line,
            'C',
        ) ==> change_of_line(line).unwrap().kind == ChangeKind::Modified,
{
}

/// `letter` stands in one of the two status places of `line`.
pub open spec fn holds(line: Seq<char>, letter: char) -> bool
    recommends
        line.len() >= 2,
{
    line[0] == letter || line[1] == letter
}

/// The change that one status line tells of.
pub fn parse_status_line(line: &str) -> (out: Option<Change>)
    ensures
        match out {
            Some(change) => change_of_line(line@) == Some(change@),
            None => change_of_line(line@) is None,
        },
{
    let n: usize = line.unicode_len();
    if n < 3 {
        return None;
    }
    let index: char = line.get_char(0);
    let tree: char = line.get_char(1);
    let path: String = String::from_str(line.substring_char(3, n));
    Some(Change { kind: ChangeKind::classify(index, tree), path })
}

/// The changes that the status lines tell of, in the order of the lines.
pub fn parse_status_lines(status_lines: &Vec<String>) -> (out: Vec<Change>)
    ensures
        out.deep_view() == changes_of_lines(status_lines.deep_view()),
{
    let mut out: Vec<Change> = Vec::new();
    let n: usize = status_lines.len();
    let mut i: usize = 0;
    while i < n
        invariant
            i <= n,
            n == status_lines.len(),
            out.deep_view() == changes_of_lines(status_lines.deep_view().take(i as int)),
        decreases n - i,
    {
        assert(status_lines.deep_view().take(i + 1).drop_last() =~= status_lines.deep_view().take(
            i as int,
        ));
        match parse_status_line(status_lines[i].as_str()) {
            Some(change) => {
                out.push(change);
            },
            None => {},
        }
        i += 1;
    }
    assert(status_lines.deep_view().take(n as int) =~= status_lines.deep_view());
    out
}

/// The changes that the output of a status query tells of.
pub fn parse_status(output: &str) -> (out: Vec<Change>)
    ensures
        out.deep_view() == changes_of_lines(lines(output@)),
{
    let status_lines: Vec<String> = split_lines(output);
    parse_status_lines(&status_lines)
}

/// How one run of the version-control program ended.
#[derive(Debug)]
pub enum ProcessOutcome {
    /// The program could not be started; the text says why.
    SpawnFailed(String),
    /// The program was started, but waiting for its end failed; the text says why.
    WaitFailed(String),
    /// The program ran to its end.
    Exited { success: bool, stdout: String, stderr: String },
}

/// The end of a run as contracts see it.
pub enum ProcessOutcomeView {
    SpawnFailed(Seq<char>),
    WaitFailed(Seq<char>),
    Exited { success: bool, stdout: Seq<char>, stderr: Seq<char> },
}

impl View for ProcessOutcome {
    type V = ProcessOutcomeView;

    open spec fn view(&self) -> ProcessOutcomeView {
        match self {
            ProcessOutcome::SpawnFailed(why) => ProcessOutcomeView::SpawnFailed(why@),
            ProcessOutcome::WaitFailed(why) => ProcessOutcomeView::WaitFailed(why@),
            ProcessOutcome::Exited { success, stdout, stderr } => ProcessOutcomeView::Exited {
                success: *success,
                stdout: stdout@,
                stderr: stderr@,
            },
        }
    }
}

impl ProcessOutcomeView {
    /// The failure that stands for a program that did not run to its end.
    /// `context` says what was being tried.
    pub open spec fn launch_failure(self, context: Seq<char>) -> Option<GitCliErrorView> {
        match self {
            ProcessOutcomeView::SpawnFailed(why) => Some(
                GitCliErrorView::GitCommandFailed(context + ": "@ + why),
            ),
            ProcessOutcomeView::WaitFailed(why) => Some(
                GitCliErrorView::GitCommandFailed("Failed to wait on child: "@ + why),
            ),
            ProcessOutcomeView::Exited { .. } => None,
        }
    }

    /// What the program wrote to its output; nothing if it did not run.
    pub open spec fn output(self) -> Seq<char> {
        match self {
            ProcessOutcomeView::Exited { stdout, .. } => stdout,
            _ => Seq::empty(),
        }
    }

    /// What the program wrote to its two streams, the output first.
    pub open spec fn combined(self) -> Seq<char> {
        match self {
            ProcessOutcomeView::Exited { stdout, stderr, .. } => stdout + "\n"@ + stderr,
            _ => Seq::empty(),
        }
    }

    /// What the program has to say of its failure: both streams where they
    /// were shown as they came, the error stream alone otherwise.
    pub open spec fn complaint(self, streamed: bool) -> Seq<char> {
        match self {
            ProcessOutcomeView::Exited { stderr, .. } => if streamed {
                self.combined()
            } else {
                stderr
            },
            _ => Seq::empty(),
        }
    }

    /// The failure of a command that has to succeed: it did not run to its
    /// end, or it ended without success.
    pub open spec fn failure(self, context: Seq<char>, refusal: Seq<char>, streamed: bool) -> Option<
        GitCliErrorView,
    > {
        match self {
            ProcessOutcomeView::Exited { success, .. } => if success {
                None
            } else {
                Some(GitCliErrorView::GitCommandFailed(refusal + self.complaint(streamed)))
            },
            _ => self.launch_failure(context),
        }
    }
}

impl ProcessOutcome {
    /// The failure that stands for a program that did not run to its end.
    pub fn launch_failure(&self, context: &str) -> (out: Option<GitCliError>)
        ensures
            match out {
                Some(e) => self@.launch_failure(context@) == Some(e@),
                None => self@.launch_failure(context@) is None,
            },
    {
        match self {
            ProcessOutcome::SpawnFailed(why) => Some(
                GitCliError::GitCommandFailed(
                    String::from_str(context).concat(": ").concat(why.as_str()),
                ),
            ),
            ProcessOutcome::WaitFailed(why) => Some(
                GitCliError::GitCommandFailed(
                    String::from_str("Failed to wait on child: ").concat(why.as_str()),
                ),
            ),
            ProcessOutcome::Exited { .. } => None,
        }
    }

    /// The failure of a command that has to succeed.
    pub fn failure(&self, context: &str, refusal: &str, streamed: bool) -> (out: Option<
        GitCliError,
    >)
        ensures
            match out {
                Some(e) => self@.failure(context@, refusal@, streamed) == Some(e@),
                None => self@.failure(context@, refusal@, streamed) is None,
            },
    {
        match self {
            ProcessOutcome::Exited { success, stdout, stderr } => {
                if *success {
                    None
                } else if streamed {
                    let text: String = String::from_str(refusal).concat(stdout.as_str()).concat(
                        "\n",
                    ).concat(stderr.as_str());
                    assert(text@ =~= refusal@ + self@.complaint(streamed));
                    Some(GitCliError::GitCommandFailed(text))
                } else {
                    Some(
                        GitCliError::GitCommandFailed(
                            String::from_str(refusal).concat(stderr.as_str()),
                        ),
                    )
                }
            },
            _ => self.launch_failure(context),
        }
    }
}

/// `words` without the empty ones.
pub open spec fn without_empty(words: Seq<Seq<char>>) -> Seq<Seq<char>>
    decreases words.len(),
{
    if words.len() == 0 {
        Seq::empty()
    } else if words.last().len() == 0 {
        without_empty(words.drop_last())
    } else {
        without_empty(words.drop_last()).push(words.last())
    }
}

/// Whether the repository was found.
pub open spec fn verify_result(outcome: ProcessOutcomeView) -> Result<(), GitCliErrorView> {
    match outcome.launch_failure("Failed to execute git command"@) {
        Some(e) => Err(e),
        None => if "true"@.is_prefix_of(outcome.output()) {
            Ok(())
        } else {
            Err(GitCliErrorView::NotGitRepo)
        },
    }
}

/// The change set that a status query gave.
pub open spec fn status_result(outcome: ProcessOutcomeView) -> Result<
    Seq<ChangeView>,
    GitCliErrorView,
> {
    match outcome.launch_failure("Failed to get git status"@) {
        Some(e) => Err(e),
        None => Ok(changes_of_lines(lines(outcome.output()))),
    }
}

/// Whether staging went through.
pub open spec fn add_result(outcome: ProcessOutcomeView) -> Result<(), GitCliErrorView> {
    match outcome.failure("Failed to stage files"@, "Git add failed: "@, false) {
        Some(e) => Err(e),
        None => Ok(()),
    }
}

/// Whether the commit was made. A commit that was refused is no failure here:
/// the caller decides what to do about it.
pub open spec fn commit_result(outcome: ProcessOutcomeView) -> Result<bool, GitCliErrorView> {
    match outcome {
        ProcessOutcomeView::Exited { success, .. } => Ok(success),
        _ => Err(outcome.launch_failure("Failed to commit changes"@).unwrap()),
    }
}

/// The name of the current branch.
pub open spec fn branch_result(outcome: ProcessOutcomeView) -> Result<Seq<char>, GitCliErrorView> {
    match outcome.failure("Failed to get current branch"@, "Failed to get branch: "@, false) {
        Some(e) => Err(e),
        None => Ok(trimmed(outcome.output())),
    }
}

/// Whether fetching went through.
pub open spec fn fetch_result(outcome: ProcessOutcomeView) -> Result<(), GitCliErrorView> {
    match outcome.failure("Failed to fetch"@, "Fetch failed: "@, false) {
        Some(e) => Err(e),
        None => Ok(()),
    }
}

/// The identifier of the local head, as the program wrote it.
pub open spec fn local_head_result(outcome: ProcessOutcomeView) -> Result<
    Seq<char>,
    GitCliErrorView,
> {
    match outcome.launch_failure("Failed to get local commit"@) {
        Some(e) => Err(e),
        None => Ok(outcome.output()),
    }
}

/// Whether the remote head differs from the local one.
pub open spec fn remote_changes_result(local_head: Seq<char>, outcome: ProcessOutcomeView) -> Result<
    bool,
    GitCliErrorView,
> {
    match outcome.launch_failure("Failed to get remote commit"@) {
        Some(e) => Err(e),
        None => Ok(local_head != outcome.output()),
    }
}

/// Whether pulling went through.
pub open spec fn pull_result(outcome: ProcessOutcomeView) -> Result<(), GitCliErrorView> {
    match outcome.failure("Failed to pull changes"@, "Pull failed: "@, true) {
        Some(e) => Err(e),
        None => Ok(()),
    }
}

/// Whether pushing went through.
pub open spec fn push_result(outcome: ProcessOutcomeView) -> Result<(), GitCliErrorView> {
    match outcome.failure("Failed to push commits"@, "Push failed: "@, true) {
        Some(e) => Err(e),
        None => Ok(()),
    }
}

/// Whether stashing went through.
pub open spec fn stash_result(outcome: ProcessOutcomeView) -> Result<(), GitCliErrorView> {
    match outcome.failure("Failed to stash"@, "Stash failed: "@, false) {
        Some(e) => Err(e),
        None => Ok(()),
    }
}

/// Whether the stash was restored.
pub open spec fn stash_pop_result(outcome: ProcessOutcomeView) -> Result<(), GitCliErrorView> {
    match outcome.failure("Failed to pop stash"@, "Stash pop failed: "@, false) {
        Some(e) => Err(e),
        None => Ok(()),
    }
}

/// The recent commits, one line each.
pub open spec fn log_result(outcome: ProcessOutcomeView) -> Result<
    Seq<Seq<char>>,
    GitCliErrorView,
> {
    match outcome.failure("Failed to get commits"@, "Get commits failed: "@, false) {
        Some(e) => Err(e),
        None => Ok(lines(outcome.output())),
    }
}

/// The words of the command that stages `files`, or everything if there are none.
pub open spec fn add_words(files: Seq<Seq<char>>) -> Seq<Seq<char>> {
    if files.len() == 0 {
        seq!["add"@, "."@]
    } else {
        seq!["add"@] + files
    }
}

/// The words of the command that commits with `title` and, where there is
/// one, `body` as a second paragraph.
pub open spec fn commit_words(title: Seq<char>, body: Option<Seq<char>>) -> Seq<Seq<char>> {
    match body {
        Some(text) => without_empty(seq!["commit"@, "-m"@, title, "-m"@, text]),
        None => without_empty(seq!["commit"@, "-m"@, title]),
    }
}

/// The words of the command that pulls `branch`.
pub open spec fn pull_words(branch: Seq<char>, use_rebase: bool) -> Seq<Seq<char>> {
    if use_rebase {
        without_empty(seq!["pull"@, "--rebase"@, "origin"@, branch])
    } else {
        without_empty(seq!["pull"@, "origin"@, branch])
    }
}

/// Adds `word` at the end of `words`.
fn push_word(words: &mut Vec<String>, word: &str)
    ensures
        final(words).deep_view() == old(words).deep_view().push(word@),
{
    let owned: String = String::from_str(word);
    words.push(owned);
}

/// `words` without the empty ones.
fn drop_empty(words: Vec<String>) -> (out: Vec<String>)
    ensures
        out.deep_view() == without_empty(words.deep_view()),
{
    let mut out: Vec<String> = Vec::new();
    let n: usize = words.len();
    let mut i: usize = 0;
    while i < n
        invariant
            i <= n,
            n == words.len(),
            out.deep_view() == without_empty(words.deep_view().take(i as int)),
        decreases n - i,
    {
        assert(words.deep_view().take(i + 1).drop_last() =~= words.deep_view().take(i as int));
        if !words[i].as_str().is_empty() {
            push_word(&mut out, words[i].as_str());
        }
        i += 1;
    }
    assert(words.deep_view().take(n as int) =~= words.deep_view());
    out
}

/// The adapter between the workflow and the version-control program: it words
/// the commands and reads what came back. Running them is left to the caller.
pub struct GitService {
    pub debug: bool,
}

impl GitService {
    pub fn new(debug: bool) -> (service: GitService)
        ensures
            service.debug == debug,
    {
        GitService { debug }
    }

    /// The words of the query whether the working directory lies in a repository.
    pub fn verify_git_initialized_args(&self) -> (out: Vec<String>)
        ensures
            out.deep_view() == seq!["rev-parse"@, "--is-inside-work-tree"@],
    {
        let mut out: Vec<String> = Vec::new();
        push_word(&mut out, "rev-parse");
        push_word(&mut out, "--is-inside-work-tree");
        out
    }

    /// Reads the answer to that query: the repository is there if the output
    /// begins with `true`.
    pub fn verify_git_initialized(&self, outcome: &ProcessOutcome) -> (out: Result<(), GitCliError>)
        ensures
            match out {
                Ok(_) => verify_result(outcome@) is Ok,
                Err(e) => verify_result(outcome@) == Err::<(), GitCliErrorView>(e@),
            },
    {
        match outcome {
            ProcessOutcome::Exited { stdout, .. } => {
                if starts_with(stdout.as_str(), "true") {
                    Ok(())
                } else {
                    Err(GitCliError::NotGitRepo)
                }
            },
            _ => {
                match outcome.launch_failure("Failed to execute git command") {
                    Some(e) => Err(e),
                    None => Ok(()),
                }
            },
        }
    }

    /// The words of the status query.
    pub fn get_status_args(&self) -> (out: Vec<String>)
        ensures
            out.deep_view() == seq!["status"@, "--porcelain"@],
    {
        let mut out: Vec<String> = Vec::new();
        push_word(&mut out, "status");
        push_word(&mut out, "--porcelain");
        out
    }

    /// Reads the change set off the output of the status query.
    pub fn get_status(&self, outcome: &ProcessOutcome) -> (out: Result<Vec<Change>, GitCliError>)
        ensures
            match out {
                Ok(changes) => status_result(outcome@) == Ok::<Seq<ChangeView>, GitCliErrorView>(
                    changes.deep_view(),
                ),
                Err(e) => status_result(outcome@) == Err::<Seq<ChangeView>, GitCliErrorView>(e@),
            },
    {
        match outcome {
            ProcessOutcome::Exited { stdout, .. } => Ok(parse_status(stdout.as_str())),
            _ => {
                match outcome.launch_failure("Failed to get git status") {
                    Some(e) => Err(e),
                    None => Ok(Vec::new()),
                }
            },
        }
    }

    /// The words of the command that stages `files`, or everything if there are none.
    pub fn add_files_args(&self, files: &Vec<String>) -> (out: Vec<String>)
        ensures
            out.deep_view() == add_words(files.deep_view()),
    {
        let mut out: Vec<String> = Vec::new();
        push_word(&mut out, "add");
        if files.len() == 0 {
            push_word(&mut out, ".");
            return out;
        }
        let n: usize = files.len();
        let mut i: usize = 0;
        while i < n
            invariant
                i <= n,
                n == files.len(),
                out.deep_view() == seq!["add"@] + files.deep_view().take(i as int),
            decreases n - i,
        {
            push_word(&mut out, files[i].as_str());
            i += 1;
        }
        out
    }

    /// Whether staging went through.
    pub fn add_files(&self, outcome: &ProcessOutcome) -> (out: Result<(), GitCliError>)
        ensures
            match out {
                Ok(_) => add_result(outcome@) is Ok,
                Err(e) => add_result(outcome@) == Err::<(), GitCliErrorView>(e@),
            },
    {
        match outcome.failure("Failed to stage files", "Git add failed: ", false) {
            Some(e) => Err(e),
            None => Ok(()),
        }
    }

    /// The words of the commit command.
    pub fn commit_args(&self, title: &str, body: Option<&str>) -> (out: Vec<String>)
        ensures
            out.deep_view() == commit_words(
                title@,
                match body {
                    Some(text) => Some(text@),
                    None => None,
                },
            ),
    {
        let mut words: Vec<String> = Vec::new();
        push_word(&mut words, "commit");
        push_word(&mut words, "-m");
        push_word(&mut words, title);
        match body {
            Some(text) => {
                push_word(&mut words, "-m");
                push_word(&mut words, text);
                assert(words.deep_view() =~= seq!["commit"@, "-m"@, title@, "-m"@, text@]);
            },
            None => {
                assert(words.deep_view() =~= seq!["commit"@, "-m"@, title@]);
            },
        }
        drop_empty(words)
    }

    /// Whether the commit was made.
    pub fn commit(&self, outcome: &ProcessOutcome) -> (out: Result<bool, GitCliError>)
        ensures
            match out {
                Ok(made) => commit_result(outcome@) == Ok::<bool, GitCliErrorView>(made),
                Err(e) => commit_result(outcome@) == Err::<bool, GitCliErrorView>(e@),
            },
    {
        match outcome {
            ProcessOutcome::Exited { success, .. } => Ok(*success),
            _ => {
                match outcome.launch_failure("Failed to commit changes") {
                    Some(e) => Err(e),
                    None => Ok(false),
                }
            },
        }
    }

    /// The words of the query for the current branch.
    pub fn get_current_branch_args(&self) -> (out: Vec<String>)
        ensures
            out.deep_view() == seq!["rev-parse"@, "--abbrev-ref"@, "HEAD"@],
    {
        let mut out: Vec<String> = Vec::new();
        push_word(&mut out, "rev-parse");
        push_word(&mut out, "--abbrev-ref");
        push_word(&mut out, "HEAD");
        out
    }

    /// The name of the current branch: the output without the white space around it.
    pub fn get_current_branch(&self, outcome: &ProcessOutcome) -> (out: Result<String, GitCliError>)
        ensures
            match out {
                Ok(branch) => branch_result(outcome@) == Ok::<Seq<char>, GitCliErrorView>(branch@),
                Err(e) => branch_result(outcome@) == Err::<Seq<char>, GitCliErrorView>(e@),
            },
    {
        match outcome.failure("Failed to get current branch", "Failed to get branch: ", false) {
            Some(e) => Err(e),
            None => {
                match outcome {
                    ProcessOutcome::Exited { stdout, .. } => Ok(
                        String::from_str(trim(stdout.as_str())),
                    ),
                    _ => Ok(String::new()),
                }
            },
        }
    }

    /// The words of the command that fetches `branch`.
    pub fn fetch_origin_args(&self, branch: &str) -> (out: Vec<String>)
        ensures
            out.deep_view() == seq!["fetch"@, "origin"@, branch@],
    {
        let mut out: Vec<String> = Vec::new();
        push_word(&mut out, "fetch");
        push_word(&mut out, "origin");
        push_word(&mut out, branch);
        out
    }

    /// Whether fetching went through.
    pub fn fetch_origin(&self, outcome: &ProcessOutcome) -> (out: Result<(), GitCliError>)
        ensures
            match out {
                Ok(_) => fetch_result(outcome@) is Ok,
                Err(e) => fetch_result(outcome@) == Err::<(), GitCliErrorView>(e@),
            },
    {
        match outcome.failure("Failed to fetch", "Fetch failed: ", false) {
            Some(e) => Err(e),
            None => Ok(()),
        }
    }

    /// The words of the query for the local head.
    pub fn local_head_args(&self) -> (out: Vec<String>)
        ensures
            out.deep_view() == seq!["rev-parse"@, "HEAD"@],
    {
        let mut out: Vec<String> = Vec::new();
        push_word(&mut out, "rev-parse");
        push_word(&mut out, "HEAD");
        out
    }

    /// The identifier of the local head, as the program wrote it.
    pub fn local_head(&self, outcome: &ProcessOutcome) -> (out: Result<String, GitCliError>)
        ensures
            match out {
                Ok(head) => local_head_result(outcome@) == Ok::<Seq<char>, GitCliErrorView>(head@),
                Err(e) => local_head_result(outcome@) == Err::<Seq<char>, GitCliErrorView>(e@),
            },
    {
        match outcome {
            ProcessOutcome::Exited { stdout, .. } => Ok(stdout.clone()),
            _ => {
                match outcome.launch_failure("Failed to get local commit") {
                    Some(e) => Err(e),
                    None => Ok(String::new()),
                }
            },
        }
    }

    /// The words of the query for the head of `branch` at the remote.
    pub fn remote_head_args(&self, branch: &str) -> (out: Vec<String>)
        ensures
            out.deep_view() == seq!["rev-parse"@, "origin/"@ + branch@],
    {
        let mut out: Vec<String> = Vec::new();
        push_word(&mut out, "rev-parse");
        let name: String = String::from_str("origin/").concat(branch);
        push_word(&mut out, name.as_str());
        out
    }

    /// Whether the remote has something to pull: its head is written
    /// otherwise than the local one.
    pub fn has_remote_changes(&self, local_head: &String, outcome: &ProcessOutcome) -> (out: Result<
        bool,
        GitCliError,
    >)
        ensures
            match out {
                Ok(differs) => remote_changes_result(local_head@, outcome@) == Ok::<
                    bool,
                    GitCliErrorView,
                >(differs),
                Err(e) => remote_changes_result(local_head@, outcome@) == Err::<
                    bool,
                    GitCliErrorView,
                >(e@),
            },
    {
        match outcome {
            ProcessOutcome::Exited { stdout, .. } => Ok(*local_head != *stdout),
            _ => {
                match outcome.launch_failure("Failed to get remote commit") {
                    Some(e) => Err(e),
                    None => Ok(false),
                }
            },
        }
    }

    /// The words of the command that pulls `branch`.
    pub fn pull_args(&self, branch: &str, use_rebase: bool) -> (out: Vec<String>)
        ensures
            out.deep_view() == pull_words(branch@, use_rebase),
    {
        let mut words: Vec<String> = Vec::new();
        push_word(&mut words, "pull");
        if use_rebase {
            push_word(&mut words, "--rebase");
        }
        push_word(&mut words, "origin");
        push_word(&mut words, branch);
        assert(use_rebase ==> words.deep_view() =~= seq![
            "pull"@,
            "--rebase"@,
            "origin"@,
            branch@,
        ]);
        assert(!use_rebase ==> words.deep_view() =~= seq!["pull"@, "origin"@, branch@]);
        drop_empty(words)
    }

    /// Whether pulling went through.
    pub fn pull(&self, outcome: &ProcessOutcome) -> (out: Result<(), GitCliError>)
        ensures
            match out {
                Ok(_) => pull_result(outcome@) is Ok,
                Err(e) => pull_result(outcome@) == Err::<(), GitCliErrorView>(e@),
            },
    {
        match outcome.failure("Failed to pull changes", "Pull failed: ", true) {
            Some(e) => Err(e),
            None => Ok(()),
        }
    }

    /// The words of the command that pushes `branch`.
    pub fn push_args(&self, branch: &str) -> (out: Vec<String>)
        ensures
            out.deep_view() == without_empty(seq!["push"@, "origin"@, branch@]),
    {
        let mut words: Vec<String> = Vec::new();
        push_word(&mut words, "push");
        push_word(&mut words, "origin");
        push_word(&mut words, branch);
        assert(words.deep_view() =~= seq!["push"@, "origin"@, branch@]);
        drop_empty(words)
    }

    /// Whether pushing went through.
    pub fn push(&self, outcome: &ProcessOutcome) -> (out: Result<(), GitCliError>)
        ensures
            match out {
                Ok(_) => push_result(outcome@) is Ok,
                Err(e) => push_result(outcome@) == Err::<(), GitCliErrorView>(e@),
            },
    {
        match outcome.failure("Failed to push commits", "Push failed: ", true) {
            Some(e) => Err(e),
            None => Ok(()),
        }
    }

    /// The words of the command that stashes the local changes.
    pub fn stash_args(&self) -> (out: Vec<String>)
        ensures
            out.deep_view() == seq!["stash"@],
    {
        let mut out: Vec<String> = Vec::new();
        push_word(&mut out, "stash");
        out
    }

    /// Whether stashing went through.
    pub fn stash(&self, outcome: &ProcessOutcome) -> (out: Result<(), GitCliError>)
        ensures
            match out {
                Ok(_) => stash_result(outcome@) is Ok,
                Err(e) => stash_result(outcome@) == Err::<(), GitCliErrorView>(e@),
            },
    {
        match outcome.failure("Failed to stash", "Stash failed: ", false) {
            Some(e) => Err(e),
            None => Ok(()),
        }
    }

    /// The words of the command that restores what was stashed.
    pub fn stash_pop_args(&self) -> (out: Vec<String>)
        ensures
            out.deep_view() == seq!["stash"@, "pop"@],
    {
        let mut out: Vec<String> = Vec::new();
        push_word(&mut out, "stash");
        push_word(&mut out, "pop");
        out
    }

    /// Whether the stash was restored.
    pub fn stash_pop(&self, outcome: &ProcessOutcome) -> (out: Result<(), GitCliError>)
        ensures
            match out {
                Ok(_) => stash_pop_result(outcome@) is Ok,
                Err(e) => stash_pop_result(outcome@) == Err::<(), GitCliErrorView>(e@),
            },
    {
        match outcome.failure("Failed to pop stash", "Stash pop failed: ", false) {
            Some(e) => Err(e),
            None => Ok(()),
        }
    }

    /// The words of the query for the last `count` commits, one line each.
    pub fn get_recent_commits_args(&self, count: usize) -> (out: Vec<String>)
        ensures
            out.deep_view() == seq!["log"@, "--oneline"@, "-"@ + decimal(count as nat)],
    {
        let mut out: Vec<String> = Vec::new();
        push_word(&mut out, "log");
        push_word(&mut out, "--oneline");
        let limit: String = String::from_str("-").concat(decimal_string(count).as_str());
        push_word(&mut out, limit.as_str());
        out
    }

    /// The recent commits, one line each.
    pub fn get_recent_commits(&self, outcome: &ProcessOutcome) -> (out: Result<
        Vec<String>,
        GitCliError,
    >)
        ensures
            match out {
                Ok(commits) => log_result(outcome@) == Ok::<Seq<Seq<char>>, GitCliErrorView>(
                    commits.deep_view(),
                ),
                Err(e) => log_result(outcome@) == Err::<Seq<Seq<char>>, GitCliErrorView>(e@),
            },
    {
        match outcome.failure("Failed to get commits", "Get commits failed: ", false) {
            Some(e) => Err(e),
            None => {
                match outcome {
                    ProcessOutcome::Exited { stdout, .. } => Ok(split_lines(stdout.as_str())),
                    _ => Ok(Vec::new()),
                }
            },
        }
    }
}

} // verus!
