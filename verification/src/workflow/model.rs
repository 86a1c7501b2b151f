//! The commit workflow as a transition function: from what the run has
//! gathered so far and the answer to its last request, to what it has
//! gathered then and what it tells the user.

use crate::config::Config;
use crate::emojis::first_answering;
use crate::emojis::EmojiView;
use crate::errors::GitCliErrorView;
use crate::git::add_result;
use crate::git::add_words;
use crate::git::branch_result;
use crate::git::commit_result;
use crate::git::commit_words;
use crate::git::fetch_result;
use crate::git::local_head_result;
use crate::git::log_result;
use crate::git::pull_result;
use crate::git::pull_words;
use crate::git::push_result;
use crate::git::remote_changes_result;
use crate::git::stash_pop_result;
use crate::git::stash_result;
use crate::git::status_result;
use crate::git::verify_result;
use crate::git::without_empty;
use crate::git::ChangeView;
use crate::git::ProcessOutcomeView;
use crate::text::decimal;
use crate::ui::body_verdict;
use crate::ui::entered_body;
use crate::ui::entered_title;
use crate::ui::picked_emoji;
use crate::ui::picked_paths;
use crate::ui::push_without_asking;
use crate::ui::shown_changes;
use crate::ui::shown_commits;
use crate::ui::title_help_text;
use crate::ui::suggestion_for;
use crate::ui::title_admission;
use vstd::prelude::*;

verus! {

/// A command for the version-control program.
#[derive(Debug, Clone, Copy, PartialEq, Eq, Structural)]
pub enum GitOp {
    VerifyRepo,
    Status,
    AddAll,
    AddSelected,
    Commit,
    CurrentBranch,
    Fetch,
    LocalHead,
    RemoteHead,
    Pull,
    Stash,
    StashPop,
    Push,
    Log,
}

impl GitOp {
    /// The command is shown as it runs, for it may take long and say much.
    /// What such a command wrote is kept from both of its streams.
    pub open spec fn streamed(self) -> bool {
        self == GitOp::Commit || self == GitOp::Pull || self == GitOp::Push
    }

    /// Whether the command is to be shown as it runs.
    pub fn is_streamed(&self) -> (out: bool)
        ensures
            out == self.streamed(),
    {
        match self {
            GitOp::Commit => true,
            GitOp::Pull => true,
            GitOp::Push => true,
            _ => false,
        }
    }
}

/// A question for the user.
#[derive(Debug, Clone, Copy, PartialEq, Eq, Structural)]
pub enum Prompt {
    StageAll,
    Files,
    Emoji,
    Title,
    Body,
    Push,
}

/// What the run asks of its caller next.
#[derive(Debug, Clone, Copy, PartialEq, Eq, Structural)]
pub enum Action {
    /// Run this command and report how it ended.
    Run(GitOp),
    /// Put this question to the user and report the answer.
    Ask(Prompt),
    /// Nothing: the run is over.
    Finish,
}

/// Where the run stands: the request whose answer it awaits.
#[derive(Debug, Clone, Copy, PartialEq, Eq, Structural)]
pub enum Phase {
    VerifyingRepo,
    ReadingStatus,
    AskingStageAll,
    AskingFiles,
    StagingAll,
    StagingSelected,
    AskingEmoji,
    AskingTitle,
    AskingBody,
    Committing,
    Restaging,
    Recommitting,
    ReadingBranch,
    Fetching,
    ReadingLocalHead,
    ReadingRemoteHead,
    Pulling,
    Stashing,
    PullingAgain,
    PoppingStash,
    AskingPush,
    Pushing,
    ReadingLog,
    Done,
}

impl Phase {
    /// The request that is open in this phase.
    pub open spec fn awaits(self) -> Action {
        match self {
            Phase::VerifyingRepo => Action::Run(GitOp::VerifyRepo),
            Phase::ReadingStatus => Action::Run(GitOp::Status),
            Phase::AskingStageAll => Action::Ask(Prompt::StageAll),
            Phase::AskingFiles => Action::Ask(Prompt::Files),
            Phase::StagingAll => Action::Run(GitOp::AddAll),
            Phase::StagingSelected => Action::Run(GitOp::AddSelected),
            Phase::AskingEmoji => Action::Ask(Prompt::Emoji),
            Phase::AskingTitle => Action::Ask(Prompt::Title),
            Phase::AskingBody => Action::Ask(Prompt::Body),
            Phase::Committing => Action::Run(GitOp::Commit),
            Phase::Restaging => Action::Run(GitOp::AddSelected),
            Phase::Recommitting => Action::Run(GitOp::Commit),
            Phase::ReadingBranch => Action::Run(GitOp::CurrentBranch),
            Phase::Fetching => Action::Run(GitOp::Fetch),
            Phase::ReadingLocalHead => Action::Run(GitOp::LocalHead),
            Phase::ReadingRemoteHead => Action::Run(GitOp::RemoteHead),
            Phase::Pulling => Action::Run(GitOp::Pull),
            Phase::Stashing => Action::Run(GitOp::Stash),
            Phase::PullingAgain => Action::Run(GitOp::Pull),
            Phase::PoppingStash => Action::Run(GitOp::StashPop),
            Phase::AskingPush => Action::Ask(Prompt::Push),
            Phase::Pushing => Action::Run(GitOp::Push),
            Phase::ReadingLog => Action::Run(GitOp::Log),
            Phase::Done => Action::Finish,
        }
    }

    /// The place of the phase in the order of a run.
    pub open spec fn order(self) -> nat {
        match self {
            Phase::VerifyingRepo => 0,
            Phase::ReadingStatus => 1,
            Phase::AskingStageAll => 2,
            Phase::AskingFiles => 3,
            Phase::StagingAll => 4,
            Phase::StagingSelected => 5,
            Phase::AskingEmoji => 6,
            Phase::AskingTitle => 7,
            Phase::AskingBody => 8,
            Phase::Committing => 9,
            Phase::Restaging => 10,
            Phase::Recommitting => 11,
            Phase::ReadingBranch => 12,
            Phase::Fetching => 13,
            Phase::ReadingLocalHead => 14,
            Phase::ReadingRemoteHead => 15,
            Phase::Pulling => 16,
            Phase::Stashing => 17,
            Phase::PullingAgain => 18,
            Phase::PoppingStash => 19,
            Phase::AskingPush => 20,
            Phase::Pushing => 21,
            Phase::ReadingLog => 22,
            Phase::Done => 23,
        }
    }

    /// The commit has been made: what is left is the exchange with the
    /// remote and the summary.
    pub open spec fn follows_commit(self) -> bool {
        match self {
            Phase::ReadingBranch => true,
            Phase::Fetching => true,
            Phase::ReadingLocalHead => true,
            Phase::ReadingRemoteHead => true,
            Phase::Pulling => true,
            Phase::Stashing => true,
            Phase::PullingAgain => true,
            Phase::PoppingStash => true,
            Phase::AskingPush => true,
            Phase::Pushing => true,
            Phase::ReadingLog => true,
            _ => false,
        }
    }
}

/// How much weight a notice has.
#[derive(Debug, Clone, Copy, PartialEq, Eq, Structural)]
pub enum Level {
    Info,
    Success,
    Warning,
    Error,
}

/// Something that the user is told, as contracts see it.
pub struct NoticeView {
    pub level: Level,
    pub text: Seq<char>,
}

impl NoticeView {
    pub open spec fn info(text: Seq<char>) -> NoticeView {
        NoticeView { level: Level::Info, text }
    }

    pub open spec fn success(text: Seq<char>) -> NoticeView {
        NoticeView { level: Level::Success, text }
    }

    pub open spec fn warning(text: Seq<char>) -> NoticeView {
        NoticeView { level: Level::Warning, text }
    }

    pub open spec fn error(text: Seq<char>) -> NoticeView {
        NoticeView { level: Level::Error, text }
    }
}

/// The answer to a request, as contracts see it.
pub enum EventView {
    /// The command ended so.
    Ran(ProcessOutcomeView),
    /// The user said yes or no.
    Confirmed(bool),
    /// The user picked the choices at these places.
    Picked(Seq<usize>),
    /// The user entered this text.
    Entered(Seq<char>),
    /// The user gave up.
    Cancelled,
    /// The question could not be put.
    PromptFailed,
}

/// What the command line asked for, as contracts see it.
pub struct AppConfigView {
    pub debug: bool,
    pub non_interactive: bool,
    pub emoji: Option<Seq<char>>,
    pub title: Option<Seq<char>>,
    pub body: Option<Seq<char>>,
}

/// What a run has gathered so far.
pub struct WorkflowView {
    pub config: Config,
    pub app_config: AppConfigView,
    pub emojis: Seq<EmojiView>,
    pub phase: Phase,
    pub changes: Seq<ChangeView>,
    pub selected: Seq<Seq<char>>,
    pub glyph: Seq<char>,
    pub title: Seq<char>,
    pub body: Option<Seq<char>>,
    pub branch: Seq<char>,
    pub local_head: Seq<char>,
    pub outcome: Option<Result<(), GitCliErrorView>>,
}

/// One step of a run: where it stands then, and what the user is told on the way.
pub struct Turn {
    pub state: WorkflowView,
    pub notices: Seq<NoticeView>,
}

impl Turn {
    /// The same step, with `earlier` told first.
    pub open spec fn preceded_by(self, earlier: Seq<NoticeView>) -> Turn {
        Turn { state: self.state, notices: earlier + self.notices }
    }
}

/// The paths of `changes`.
pub open spec fn paths_of(changes: Seq<ChangeView>) -> Seq<Seq<char>> {
    Seq::new(changes.len(), |i: int| changes[i].path)
}

/// One notice for each of `lines`, each of them for information.
pub open spec fn informing(lines: Seq<Seq<char>>) -> Seq<NoticeView> {
    Seq::new(lines.len(), |i: int| NoticeView::info(lines[i]))
}

/// The list of the changes, as the user is shown it.
pub open spec fn change_listing(changes: Seq<ChangeView>) -> Seq<NoticeView> {
    informing(shown_changes(changes))
}

/// The list of the recent commits, as the user is shown it; nothing if there are none.
pub open spec fn commit_listing(commits: Seq<Seq<char>>) -> Seq<NoticeView> {
    informing(shown_commits(commits))
}

/// How many commits the summary shows.
pub open spec fn summary_length() -> usize {
    5
}

impl WorkflowView {
    /// A run that has gathered nothing yet.
    pub open spec fn initial(
        config: Config,
        app_config: AppConfigView,
        emojis: Seq<EmojiView>,
    ) -> WorkflowView {
        WorkflowView {
            config,
            app_config,
            emojis,
            phase: Phase::VerifyingRepo,
            changes: Seq::empty(),
            selected: Seq::empty(),
            glyph: Seq::empty(),
            title: Seq::empty(),
            body: None,
            branch: Seq::empty(),
            local_head: Seq::empty(),
            outcome: None,
        }
    }

    /// The request that is open.
    pub open spec fn awaited(self) -> Action {
        self.phase.awaits()
    }

    /// The first line of the commit message: the glyph, then the title.
    pub open spec fn headline(self) -> Seq<char> {
        self.glyph + " "@ + self.title
    }

    /// The words of the command that is open; none if no command is.
    pub open spec fn command_words(self) -> Seq<Seq<char>> {
        match self.awaited() {
            Action::Run(GitOp::VerifyRepo) => seq!["rev-parse"@, "--is-inside-work-tree"@],
            Action::Run(GitOp::Status) => seq!["status"@, "--porcelain"@],
            Action::Run(GitOp::AddAll) => add_words(Seq::empty()),
            Action::Run(GitOp::AddSelected) => add_words(self.selected),
            Action::Run(GitOp::Commit) => commit_words(self.headline(), self.body),
            Action::Run(GitOp::CurrentBranch) => seq!["rev-parse"@, "--abbrev-ref"@, "HEAD"@],
            Action::Run(GitOp::Fetch) => seq!["fetch"@, "origin"@, self.branch],
            Action::Run(GitOp::LocalHead) => seq!["rev-parse"@, "HEAD"@],
            Action::Run(GitOp::RemoteHead) => seq!["rev-parse"@, "origin/"@ + self.branch],
            Action::Run(GitOp::Pull) => pull_words(self.branch, true),
            Action::Run(GitOp::Stash) => seq!["stash"@],
            Action::Run(GitOp::StashPop) => seq!["stash"@, "pop"@],
            Action::Run(GitOp::Push) => without_empty(seq!["push"@, "origin"@, self.branch]),
            Action::Run(GitOp::Log) => seq![
                "log"@,
                "--oneline"@,
                "-"@ + decimal(summary_length() as nat),
            ],
            _ => Seq::empty(),
        }
    }

    /// The question that is open, in words; nothing if no question is.
    pub open spec fn question(self) -> Seq<char> {
        match self.awaited() {
            Action::Ask(Prompt::StageAll) => "Do you want to add all changes to the commit?"@,
            Action::Ask(Prompt::Files) => "Select changes to add to the commit:"@,
            Action::Ask(Prompt::Emoji) => "Select an emoji for your commit message:"@,
            Action::Ask(Prompt::Title) => "Enter commit title:"@,
            Action::Ask(Prompt::Body) => "Enter commit message (optional):"@,
            Action::Ask(Prompt::Push) => "Do you want to push the commits to the remote repository?"@,
            _ => Seq::empty(),
        }
    }

    /// What the user may choose from, where the open question is a choice.
    pub open spec fn choices(self) -> Seq<Seq<char>> {
        match self.awaited() {
            Action::Ask(Prompt::Files) => Seq::new(
                self.changes.len(),
                |i: int| self.changes[i].label(),
            ),
            Action::Ask(Prompt::Emoji) => Seq::new(
                self.emojis.len(),
                |i: int| self.emojis[i].label(),
            ),
            _ => Seq::empty(),
        }
    }

    /// The title that is suggested while the user has entered none; nothing
    /// unless the open question is the one for the title.
    pub open spec fn placeholder(self) -> Seq<char> {
        match self.awaited() {
            Action::Ask(Prompt::Title) => suggestion_for(self.changes).title(
                self.config.commit.enforce_conventional,
            ),
            _ => Seq::empty(),
        }
    }

    /// The help that goes with the open question; nothing unless it is the
    /// one for the title.
    pub open spec fn help(self) -> Seq<char> {
        match self.awaited() {
            Action::Ask(Prompt::Title) => title_help_text(self.config.commit),
            _ => Seq::empty(),
        }
    }

    /// The run in another phase.
    pub open spec fn at(self, phase: Phase) -> WorkflowView {
        WorkflowView { phase, ..self }
    }

    /// The step into `phase`, with nothing told.
    pub open spec fn go(self, phase: Phase) -> Turn {
        Turn { state: self.at(phase), notices: Seq::empty() }
    }

    /// The step that ends the run.
    pub open spec fn stop(self, result: Result<(), GitCliErrorView>) -> Turn {
        Turn {
            state: WorkflowView { phase: Phase::Done, outcome: Some(result), ..self },
            notices: Seq::empty(),
        }
    }

    /// The step that changes nothing.
    pub open spec fn stay(self) -> Turn {
        Turn { state: self, notices: Seq::empty() }
    }

    /// The repository was looked for.
    #[verifier::opaque]
    pub open spec fn after_verify(self, outcome: ProcessOutcomeView) -> Turn {
        match verify_result(outcome) {
            Ok(_) => self.go(Phase::ReadingStatus),
            Err(e) => self.stop(Err(e)),
        }
    }

    /// The status was read. With no change the run ends well. Otherwise
    /// everything is staged at once if nobody can be asked.
    #[verifier::opaque]
    pub open spec fn after_status(self, outcome: ProcessOutcomeView) -> Turn {
        match status_result(outcome) {
            Err(e) => self.stop(Err(e)),
            Ok(changes) => if changes.len() == 0 {
                self.stop(Ok(())).preceded_by(seq![NoticeView::info("No changes to commit."@)])
            } else {
                let known = WorkflowView { changes, ..self };
                let next = if self.app_config.non_interactive {
                    known.stage_everything()
                } else {
                    known.go(Phase::AskingStageAll)
                };
                next.preceded_by(change_listing(changes))
            },
        }
    }

    /// All changes are selected and staged with one command.
    #[verifier::opaque]
    pub open spec fn stage_everything(self) -> Turn {
        WorkflowView { selected: paths_of(self.changes), ..self }.go(Phase::StagingAll)
    }

    /// The user said whether to stage everything.
    #[verifier::opaque]
    pub open spec fn after_stage_all_answer(self, yes: bool) -> Turn {
        if yes {
            self.stage_everything()
        } else {
            self.go(Phase::AskingFiles)
        }
    }

    /// The user picked the changes to stage. With none picked the run fails.
    #[verifier::opaque]
    pub open spec fn after_files_picked(self, picked: Seq<usize>) -> Turn {
        let selected = picked_paths(self.changes, picked);
        if selected.len() == 0 {
            self.stop(Err(GitCliErrorView::NoChanges))
        } else {
            WorkflowView { selected, ..self }.go(Phase::StagingSelected)
        }
    }

    /// The selection was staged.
    #[verifier::opaque]
    pub open spec fn after_staged(self, outcome: ProcessOutcomeView) -> Turn {
        match add_result(outcome) {
            Err(e) => self.stop(Err(e)),
            Ok(_) => self.begin_emoji().preceded_by(
                seq![
                    NoticeView::info(
                        "Staged "@ + decimal(self.selected.len()) + " files"@,
                    ),
                ],
            ),
        }
    }

    /// The emoji is settled: by the value that the command line gave, which
    /// has to name an entry of the catalogue, or by asking. With no value and
    /// nobody to ask the run fails.
    #[verifier::opaque]
    pub open spec fn begin_emoji(self) -> Turn {
        match self.app_config.emoji {
            Some(value) => match first_answering(self.emojis, value) {
                Some(i) => WorkflowView { glyph: self.emojis[i].emoji, ..self }.begin_title(),
                None => self.stop(Err(GitCliErrorView::InvalidEmoji)),
            },
            None => if self.app_config.non_interactive {
                self.stop(Err(GitCliErrorView::InvalidEmoji))
            } else {
                self.go(Phase::AskingEmoji)
            },
        }
    }

    /// The user picked an emoji.
    #[verifier::opaque]
    pub open spec fn after_emoji_picked(self, picked: Seq<usize>) -> Turn {
        match picked_emoji(self.emojis, picked) {
            Some(emoji) => WorkflowView { glyph: emoji.emoji, ..self }.begin_title(),
            None => self.stop(Err(GitCliErrorView::InvalidEmoji)),
        }
    }

    /// What the user is told where a title is needed and nobody can be asked.
    pub open spec fn missing_title_text() -> Seq<char> {
        "A title is required in non-interactive mode"@
    }

    /// The title is settled: by the value that the command line gave, if it
    /// keeps the rules, or by asking. A value that breaks them is shown to
    /// the user, who is asked for another; with nobody to ask the run fails.
    #[verifier::opaque]
    pub open spec fn begin_title(self) -> Turn {
        match self.app_config.title {
            Some(title) => match title_admission(title, self.config.commit) {
                Ok(_) => WorkflowView { title, ..self }.begin_body(),
                Err(e) => if self.app_config.non_interactive {
                    self.stop(Err(e))
                } else {
                    self.go(Phase::AskingTitle).preceded_by(seq![NoticeView::error(e.message())])
                },
            },
            None => if self.app_config.non_interactive {
                self.stop(Err(GitCliErrorView::ValidationError(Self::missing_title_text())))
            } else {
                self.go(Phase::AskingTitle)
            },
        }
    }

    /// The user entered a title. One that breaks the rules is shown with the
    /// reason, and the question stays open.
    #[verifier::opaque]
    pub open spec fn after_title_entered(self, text: Seq<char>) -> Turn {
        match entered_title(text, self.config.commit) {
            Ok(title) => WorkflowView { title, ..self }.begin_body(),
            Err(e) => self.stay().preceded_by(
                seq![NoticeView::error(e.message()), NoticeView::info("Please try again."@)],
            ),
        }
    }

    /// The body is settled: by the value that the command line gave, if it
    /// keeps the rules, or by asking; with no value and nobody to ask there
    /// is none.
    #[verifier::opaque]
    pub open spec fn begin_body(self) -> Turn {
        match self.app_config.body {
            Some(body) => match body_verdict(body, self.config.commit) {
                Ok(_) => WorkflowView { body: Some(body), ..self }.go(Phase::Committing),
                Err(e) => self.stop(Err(e)),
            },
            None => if self.app_config.non_interactive {
                WorkflowView { body: None, ..self }.go(Phase::Committing)
            } else {
                self.go(Phase::AskingBody)
            },
        }
    }

    /// The user entered a body. It is held against the rules once.
    #[verifier::opaque]
    pub open spec fn after_body_entered(self, text: Seq<char>) -> Turn {
        match entered_body(text, self.config.commit) {
            Ok(body) => WorkflowView { body, ..self }.go(Phase::Committing),
            Err(e) => self.stop(Err(e)),
        }
    }

    /// What the user is told of the commit that was made.
    pub open spec fn committed_notice(self) -> NoticeView {
        NoticeView::success("Successfully committed with emoji: "@ + self.glyph)
    }

    /// The failure of a commit that was refused for good.
    pub open spec fn commit_refused() -> GitCliErrorView {
        GitCliErrorView::GitCommandFailed("Commit failed"@)
    }

    /// The commit was tried. One that was refused is tried again after
    /// staging the selection anew, where the configuration says so.
    #[verifier::opaque]
    pub open spec fn after_commit(self, outcome: ProcessOutcomeView) -> Turn {
        match commit_result(outcome) {
            Err(e) => self.stop(Err(e)),
            Ok(made) => if made {
                self.go(Phase::ReadingBranch).preceded_by(seq![self.committed_notice()])
            } else if self.config.hooks.retry_on_failure {
                self.go(Phase::Restaging).preceded_by(
                    seq![
                        NoticeView::warning(
                            "Pre-commit hook failed. Re-staging files and retrying..."@,
                        ),
                    ],
                )
            } else {
                self.stop(Err(Self::commit_refused()))
            },
        }
    }

    /// The selection was staged anew.
    #[verifier::opaque]
    pub open spec fn after_restaged(self, outcome: ProcessOutcomeView) -> Turn {
        match add_result(outcome) {
            Err(e) => self.stop(Err(e)),
            Ok(_) => self.go(Phase::Recommitting).preceded_by(
                seq![NoticeView::success("Successfully re-staged changes"@)],
            ),
        }
    }

    /// The commit was tried again. A second refusal ends the run.
    #[verifier::opaque]
    pub open spec fn after_recommit(self, outcome: ProcessOutcomeView) -> Turn {
        match commit_result(outcome) {
            Err(e) => self.stop(Err(e)),
            Ok(made) => if made {
                self.go(Phase::ReadingBranch).preceded_by(
                    seq![
                        NoticeView::success("Commit successful after retry"@),
                        self.committed_notice(),
                    ],
                )
            } else {
                self.stop(Err(Self::commit_refused())).preceded_by(
                    seq![NoticeView::error("Commit failed after retry"@)],
                )
            },
        }
    }

    /// The branch was read. Without its name nothing can be exchanged with
    /// the remote, and the summary is next.
    #[verifier::opaque]
    pub open spec fn after_branch(self, outcome: ProcessOutcomeView) -> Turn {
        match branch_result(outcome) {
            Err(e) => self.go(Phase::ReadingLog).preceded_by(
                seq![NoticeView::warning("Failed to read current branch: "@ + e.message())],
            ),
            Ok(branch) => WorkflowView { branch, ..self }.go(Phase::Fetching).preceded_by(
                seq![NoticeView::info("Current branch: "@ + branch)],
            ),
        }
    }

    /// The remote was fetched. If that failed the summary is next.
    #[verifier::opaque]
    pub open spec fn after_fetch(self, outcome: ProcessOutcomeView) -> Turn {
        match fetch_result(outcome) {
            Err(e) => self.go(Phase::ReadingLog).preceded_by(
                seq![NoticeView::warning("Failed to fetch from remote: "@ + e.message())],
            ),
            Ok(_) => self.go(Phase::ReadingLocalHead),
        }
    }

    /// The local head was read.
    #[verifier::opaque]
    pub open spec fn after_local_head(self, outcome: ProcessOutcomeView) -> Turn {
        match local_head_result(outcome) {
            Err(e) => self.begin_push().preceded_by(
                seq![NoticeView::warning("Failed to check remote changes: "@ + e.message())],
            ),
            Ok(local_head) => WorkflowView { local_head, ..self }.go(Phase::ReadingRemoteHead),
        }
    }

    /// The remote head was read. If it differs from the local one there is
    /// something to pull.
    #[verifier::opaque]
    pub open spec fn after_remote_head(self, outcome: ProcessOutcomeView) -> Turn {
        match remote_changes_result(self.local_head, outcome) {
            Err(e) => self.begin_push().preceded_by(
                seq![NoticeView::warning("Failed to check remote changes: "@ + e.message())],
            ),
            Ok(differs) => if differs {
                self.go(Phase::Pulling).preceded_by(
                    seq![
                        NoticeView::info(
                            "There are changes to pull from the remote repository."@,
                        ),
                    ],
                )
            } else {
                self.begin_push().preceded_by(
                    seq![NoticeView::info("No changes to pull from remote"@)],
                )
            },
        }
    }

    /// The pull was tried. After a failure the local changes are stashed.
    #[verifier::opaque]
    pub open spec fn after_pull(self, outcome: ProcessOutcomeView) -> Turn {
        match pull_result(outcome) {
            Ok(_) => self.begin_push().preceded_by(
                seq![NoticeView::success("Successfully pulled changes from remote"@)],
            ),
            Err(_) => self.go(Phase::Stashing).preceded_by(
                seq![NoticeView::warning("Pull failed, trying with stash..."@)],
            ),
        }
    }

    /// The local changes were stashed, and the pull is tried again. If
    /// nothing was stashed there is nothing to try, and nothing to restore.
    #[verifier::opaque]
    pub open spec fn after_stash(self, outcome: ProcessOutcomeView) -> Turn {
        match stash_result(outcome) {
            Ok(_) => self.go(Phase::PullingAgain),
            Err(e) => self.begin_push().preceded_by(
                seq![NoticeView::error("Failed to stash: "@ + e.message())],
            ),
        }
    }

    /// The pull was tried again. Whatever came of it, the stash is restored next.
    #[verifier::opaque]
    pub open spec fn after_second_pull(self, outcome: ProcessOutcomeView) -> Turn {
        match pull_result(outcome) {
            Ok(_) => self.go(Phase::PoppingStash).preceded_by(
                seq![NoticeView::success("Successfully pulled changes"@)],
            ),
            Err(e) => self.go(Phase::PoppingStash).preceded_by(
                seq![NoticeView::error("Failed to pull: "@ + e.message())],
            ),
        }
    }

    /// The stash was restored, or the user is warned that it was not.
    #[verifier::opaque]
    pub open spec fn after_pop(self, outcome: ProcessOutcomeView) -> Turn {
        match stash_pop_result(outcome) {
            Ok(_) => self.begin_push().preceded_by(
                seq![NoticeView::success("Successfully restored stashed changes"@)],
            ),
            Err(e) => self.begin_push().preceded_by(
                seq![NoticeView::warning("Failed to restore stash: "@ + e.message())],
            ),
        }
    }

    /// Whether to push is settled: by the configuration where nobody can be
    /// asked or nobody is to be asked, by asking otherwise.
    #[verifier::opaque]
    pub open spec fn begin_push(self) -> Turn {
        match push_without_asking(self.config, self.app_config.non_interactive) {
            Some(push) => if push {
                self.go(Phase::Pushing)
            } else {
                self.go(Phase::ReadingLog)
            },
            None => self.go(Phase::AskingPush),
        }
    }

    /// The user said whether to push.
    #[verifier::opaque]
    pub open spec fn after_push_answer(self, yes: bool) -> Turn {
        if yes {
            self.go(Phase::Pushing)
        } else {
            self.go(Phase::ReadingLog)
        }
    }

    /// The push was tried.
    #[verifier::opaque]
    pub open spec fn after_push(self, outcome: ProcessOutcomeView) -> Turn {
        match push_result(outcome) {
            Ok(_) => self.go(Phase::ReadingLog).preceded_by(
                seq![NoticeView::success("Successfully pushed to origin/"@ + self.branch)],
            ),
            Err(e) => self.go(Phase::ReadingLog).preceded_by(
                seq![NoticeView::error("Failed to push: "@ + e.message())],
            ),
        }
    }

    /// The recent commits were read, and the run ends well whether or not
    /// they could be.
    #[verifier::opaque]
    pub open spec fn after_log(self, outcome: ProcessOutcomeView) -> Turn {
        match log_result(outcome) {
            Ok(commits) => self.stop(Ok(())).preceded_by(commit_listing(commits)),
            Err(_) => self.stop(Ok(())),
        }
    }

    /// The answer of a command that was run.
    pub open spec fn after_run(self, outcome: ProcessOutcomeView) -> Turn {
        match self.phase {
            Phase::VerifyingRepo => self.after_verify(outcome),
            Phase::ReadingStatus => self.after_status(outcome),
            Phase::StagingAll => self.after_staged(outcome),
            Phase::StagingSelected => self.after_staged(outcome),
            Phase::Committing => self.after_commit(outcome),
            Phase::Restaging => self.after_restaged(outcome),
            Phase::Recommitting => self.after_recommit(outcome),
            Phase::ReadingBranch => self.after_branch(outcome),
            Phase::Fetching => self.after_fetch(outcome),
            Phase::ReadingLocalHead => self.after_local_head(outcome),
            Phase::ReadingRemoteHead => self.after_remote_head(outcome),
            Phase::Pulling => self.after_pull(outcome),
            Phase::Stashing => self.after_stash(outcome),
            Phase::PullingAgain => self.after_second_pull(outcome),
            Phase::PoppingStash => self.after_pop(outcome),
            Phase::Pushing => self.after_push(outcome),
            Phase::ReadingLog => self.after_log(outcome),
            _ => self.stay(),
        }
    }

    /// The step that `event` makes. An event that does not answer the open
    /// request changes nothing. A user who gives up ends the run, and so
    /// does a question that could not be put.
    pub open spec fn advance(self, event: EventView) -> Turn {
        match event {
            EventView::Ran(outcome) => self.after_run(outcome),
            EventView::Confirmed(yes) => match self.phase {
                Phase::AskingStageAll => self.after_stage_all_answer(yes),
                Phase::AskingPush => self.after_push_answer(yes),
                _ => self.stay(),
            },
            EventView::Picked(picked) => match self.phase {
                Phase::AskingFiles => self.after_files_picked(picked),
                Phase::AskingEmoji => self.after_emoji_picked(picked),
                _ => self.stay(),
            },
            EventView::Entered(text) => match self.phase {
                Phase::AskingTitle => self.after_title_entered(text),
                Phase::AskingBody => self.after_body_entered(text),
                _ => self.stay(),
            },
            EventView::Cancelled => if self.awaited() is Ask {
                self.stop(Err(GitCliErrorView::UserCancelled))
            } else {
                self.stay()
            },
            EventView::PromptFailed => if self.awaited() is Ask {
                self.stop(Err(GitCliErrorView::InquireError))
            } else {
                self.stay()
            },
        }
    }

    /// The run ended in a failure that is none of the user's giving up.
    pub open spec fn failed(self) -> bool {
        self.outcome matches Some(Err(e)) && e != GitCliErrorView::UserCancelled
    }

    /// The code with which the process ends: zero after a run that ended
    /// well or that the user gave up, one otherwise.
    pub open spec fn exit_code(self) -> i32 {
        match self.outcome {
            Some(Ok(_)) => 0,
            Some(Err(GitCliErrorView::UserCancelled)) => 0,
            _ => 1,
        }
    }

    /// The message is fit to be committed: the title is not empty and keeps
    /// the rules, and so does the body where there is one.
    pub open spec fn draft_ready(self) -> bool {
        &&& title_admission(self.title, self.config.commit) is Ok
        &&& self.body matches Some(body) ==> body_verdict(body, self.config.commit) is Ok
    }

    /// A run is sound if it is over exactly when it has an outcome, and if
    /// nothing reaches the commit that is not fit for it: from the moment the
    /// title is settled it keeps the rules, and from the moment the commit is
    /// asked for so does the body.
    pub open spec fn sound(self) -> bool {
        &&& (self.phase == Phase::Done) == (self.outcome is Some)
        &&& match self.phase {
            Phase::AskingBody => title_admission(self.title, self.config.commit) is Ok,
            Phase::Committing => self.draft_ready(),
            Phase::Restaging => self.draft_ready(),
            Phase::Recommitting => self.draft_ready(),
            _ => true,
        }
    }
}

} // verus!
