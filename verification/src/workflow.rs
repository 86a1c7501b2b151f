//! The commit workflow: one run from the look for the repository to the
//! summary of the last commits.
//!
//! A run neither starts a program nor asks a question. It says what it needs
//! next, a command to be run or a question to be put, and is told what came
//! of it; from that it decides how to go on. The caller does the running and
//! the asking.

pub mod laws;
pub mod model;

use crate::config::Config;
use crate::emojis::lemma_first_answering;
use crate::emojis::Emoji;
use crate::emojis::EmojisObject;
use crate::errors::GitCliError;
use crate::errors::GitCliErrorView;
use crate::git::Change;
use crate::git::ChangeView;
use crate::git::GitService;
use crate::git::ProcessOutcome;
use crate::text::decimal_string;
use crate::ui::UIService;
use crate::utils::coloured;
use crate::utils::format_error_message;
use crate::utils::format_success_message;
use crate::utils::format_warning_message;
use crate::workflow::laws::lemma_advance_keeps_sound;
pub use crate::workflow::model::Action;
use crate::workflow::model::change_listing;
use crate::workflow::model::commit_listing;
use crate::workflow::model::informing;
use crate::workflow::model::paths_of;
use crate::workflow::model::AppConfigView;
use crate::workflow::model::EventView;
pub use crate::workflow::model::GitOp;
pub use crate::workflow::model::Level;
use crate::workflow::model::NoticeView;
pub use crate::workflow::model::Phase;
pub use crate::workflow::model::Prompt;
use crate::workflow::model::WorkflowView;
use vstd::prelude::*;
use vstd::string::StringExecFns;

verus! {

/// What the command line asked for.
#[derive(Debug)]
pub struct AppConfig {
    pub debug: bool,
    pub non_interactive: bool,
    pub emoji: Option<String>,
    pub title: Option<String>,
    pub body: Option<String>,
}

/// The text as contracts see it, where there is one.
pub open spec fn text_view(text: Option<String>) -> Option<Seq<char>> {
    match text {
        Some(t) => Some(t@),
        None => None,
    }
}

impl View for AppConfig {
    type V = AppConfigView;

    open spec fn view(&self) -> AppConfigView {
        AppConfigView {
            debug: self.debug,
            non_interactive: self.non_interactive,
            emoji: text_view(self.emoji),
            title: text_view(self.title),
            body: text_view(self.body),
        }
    }
}

/// Something that the user is told.
#[derive(Debug)]
pub struct Notice {
    pub level: Level,
    pub text: String,
}

impl View for Notice {
    type V = NoticeView;

    open spec fn view(&self) -> NoticeView {
        NoticeView { level: self.level, text: self.text@ }
    }
}

impl DeepView for Notice {
    type V = NoticeView;

    open spec fn deep_view(&self) -> NoticeView {
        self@
    }
}

impl NoticeView {
    /// The notice as it is printed: in the colour of its level, plain if it
    /// only informs.
    pub open spec fn rendered(self) -> Seq<char> {
        match self.level {
            Level::Info => self.text,
            Level::Success => coloured("\x1b[0;32m"@, self.text),
            Level::Warning => coloured("\x1b[0;33m"@, self.text),
            Level::Error => coloured("\x1b[0;31m"@, self.text),
        }
    }
}

impl Notice {
    pub fn new(level: Level, text: String) -> (notice: Notice)
        ensures
            notice@ == (NoticeView { level, text: text@ }),
    {
        Notice { level, text }
    }

    /// The notice as it is printed.
    pub fn render(&self) -> (out: String)
        ensures
            out@ == self@.rendered(),
    {
        match self.level {
            Level::Info => self.text.clone(),
            Level::Success => format_success_message(self.text.as_str()),
            Level::Warning => format_warning_message(self.text.as_str()),
            Level::Error => format_error_message(self.text.as_str()),
        }
    }
}

/// The answer to a request.
#[derive(Debug)]
pub enum Event {
    /// The command ended so.
    Ran(ProcessOutcome),
    /// The user said yes or no.
    Confirmed(bool),
    /// The user picked the choices at these places.
    Picked(Vec<usize>),
    /// The user entered this text.
    Entered(String),
    /// The user gave up.
    Cancelled,
    /// The question could not be put.
    PromptFailed(inquire::InquireError),
}

impl View for Event {
    type V = EventView;

    open spec fn view(&self) -> EventView {
        match self {
            Event::Ran(outcome) => EventView::Ran(outcome@),
            Event::Confirmed(yes) => EventView::Confirmed(*yes),
            Event::Picked(picked) => EventView::Picked(picked@),
            Event::Entered(text) => EventView::Entered(text@),
            Event::Cancelled => EventView::Cancelled,
            Event::PromptFailed(_) => EventView::PromptFailed,
        }
    }
}

/// How a run ended, as contracts see it.
pub open spec fn outcome_view(outcome: Option<Result<(), GitCliError>>) -> Option<
    Result<(), GitCliErrorView>,
> {
    match outcome {
        Some(Ok(_)) => Some(Ok(())),
        Some(Err(e)) => Some(Err(e@)),
        None => None,
    }
}

/// How a run ends, as contracts see it.
pub open spec fn result_view(result: Result<(), GitCliError>) -> Result<(), GitCliErrorView> {
    match result {
        Ok(_) => Ok(()),
        Err(e) => Err(e@),
    }
}

/// Adds a notice at the end of `notices`.
fn tell(notices: &mut Vec<Notice>, level: Level, text: String)
    ensures
        final(notices).deep_view() == old(notices).deep_view().push(
            NoticeView { level, text: text@ },
        ),
{
    notices.push(Notice { level, text });
}

/// Adds a notice with the text `head` and then `tail`.
fn tell_of(notices: &mut Vec<Notice>, level: Level, head: &str, tail: &str)
    ensures
        final(notices).deep_view() == old(notices).deep_view().push(
            NoticeView { level, text: head@ + tail@ },
        ),
{
    tell(notices, level, String::from_str(head).concat(tail));
}

/// The paths of `changes`.
fn paths(changes: &Vec<Change>) -> (out: Vec<String>)
    ensures
        out.deep_view() == paths_of(changes.deep_view()),
{
    let mut out: Vec<String> = Vec::new();
    let n: usize = changes.len();
    let mut i: usize = 0;
    while i < n
        invariant
            i <= n,
            n == changes.len(),
            out.len() == i,
            forall|j: int| 0 <= j < i ==> out[j]@ == changes[j].path@,
        decreases n - i,
    {
        out.push(changes[i].path.clone());
        i += 1;
    }
    out
}

/// Adds one notice for each of `lines`, each of them for information.
fn inform(lines: Vec<String>, notices: &mut Vec<Notice>)
    ensures
        final(notices).deep_view() == old(notices).deep_view() + informing(lines.deep_view()),
{
    let ghost start = notices.deep_view();
    let ghost all = lines.deep_view();
    let n: usize = lines.len();
    let mut i: usize = 0;
    while i < n
        invariant
            i <= n,
            n == lines.len(),
            all == lines.deep_view(),
            notices.deep_view().len() == start.len() + i,
            forall|j: int| 0 <= j < start.len() ==> notices.deep_view()[j] == start[j],
            forall|j: int|
                0 <= j < i ==> notices.deep_view()[start.len() + j] == NoticeView::info(all[j]),
        decreases n - i,
    {
        let ghost before = notices.deep_view();
        tell(notices, Level::Info, lines[i].clone());
        assert forall|j: int| 0 <= j < before.len() implies notices.deep_view()[j] == before[j] by {}
        i += 1;
    }
}

/// One run of the commit workflow.
pub struct GitWorkflow {
    app_config: AppConfig,
    git_service: GitService,
    ui_service: UIService,
    emojis: EmojisObject,
    phase: Phase,
    changes: Vec<Change>,
    selected: Vec<String>,
    glyph: String,
    title: String,
    body: Option<String>,
    branch: String,
    local_head: String,
    outcome: Option<Result<(), GitCliError>>,
}

impl View for GitWorkflow {
    type V = WorkflowView;

    closed spec fn view(&self) -> WorkflowView {
        WorkflowView {
            config: self.ui_service.config,
            app_config: self.app_config@,
            emojis: self.emojis@,
            phase: self.phase,
            changes: self.changes.deep_view(),
            selected: self.selected.deep_view(),
            glyph: self.glyph@,
            title: self.title@,
            body: text_view(self.body),
            branch: self.branch@,
            local_head: self.local_head@,
            outcome: outcome_view(self.outcome),
        }
    }
}

impl GitWorkflow {
    /// A run that has gathered nothing yet. Its first request is the look
    /// for the repository.
    pub fn new(app_config: AppConfig, config: Config, emojis: EmojisObject) -> (run: GitWorkflow)
        ensures
            run@ == WorkflowView::initial(config, app_config@, emojis@),
            run@.sound(),
    {
        let git_service = GitService::new(app_config.debug);
        let run = GitWorkflow {
            app_config,
            git_service,
            ui_service: UIService::new(config),
            emojis,
            phase: Phase::VerifyingRepo,
            changes: Vec::new(),
            selected: Vec::new(),
            glyph: String::new(),
            title: String::new(),
            body: None,
            branch: String::new(),
            local_head: String::new(),
            outcome: None,
        };
        assert(run.changes.deep_view() =~= Seq::<ChangeView>::empty());
        assert(run.selected.deep_view() =~= Seq::<Seq<char>>::empty());
        run
    }

    /// What the run asks of its caller next.
    pub fn awaited(&self) -> (action: Action)
        ensures
            action == self@.awaited(),
    {
        match self.phase {
            Phase::VerifyingRepo => Action::Run(GitOp::VerifyRepo),
            Phase::ReadingStatus => Action::Run(GitOp::Status),
            Phase::AskingStageAll => Action::Ask(Prompt::StageAll),
            Phase::AskingFiles => Action::Ask(Prompt::Files),
            Phase::StagingAll => Action::Run(GitOp::AddAll),
            Phase::StagingSelected => Action::Run(GitOp::AddSelected),
            Phase::AskingEmoji => Action::Ask(Prompt::Emoji),
            Phase::AskingTitle => Action::Ask(Prompt::Title),
            Phase::AskingBody => Action::Ask(Prompt::Body),
            Phase::Committing => Action::Run(GitOp::Commit),
            Phase::Restaging => Action::Run(GitOp::AddSelected),
            Phase::Recommitting => Action::Run(GitOp::Commit),
            Phase::ReadingBranch => Action::Run(GitOp::CurrentBranch),
            Phase::Fetching => Action::Run(GitOp::Fetch),
            Phase::ReadingLocalHead => Action::Run(GitOp::LocalHead),
            Phase::ReadingRemoteHead => Action::Run(GitOp::RemoteHead),
            Phase::Pulling => Action::Run(GitOp::Pull),
            Phase::Stashing => Action::Run(GitOp::Stash),
            Phase::PullingAgain => Action::Run(GitOp::Pull),
            Phase::PoppingStash => Action::Run(GitOp::StashPop),
            Phase::AskingPush => Action::Ask(Prompt::Push),
            Phase::Pushing => Action::Run(GitOp::Push),
            Phase::ReadingLog => Action::Run(GitOp::Log),
            Phase::Done => Action::Finish,
        }
    }

    /// Whether the run is over.
    pub fn is_finished(&self) -> (done: bool)
        ensures
            done == (self@.phase == Phase::Done),
            done == (self@.awaited() == Action::Finish),
    {
        match self.phase {
            Phase::Done => true,
            _ => false,
        }
    }

    /// How the run ended. A sound run has an outcome exactly when it is over.
    pub fn outcome(&self) -> (out: &Option<Result<(), GitCliError>>)
        ensures
            outcome_view(*out) == self@.outcome,
            self@.sound() ==> (out is Some <==> self@.phase == Phase::Done),
    {
        &self.outcome
    }

    /// The code with which the process is to end.
    pub fn exit_code(&self) -> (code: i32)
        ensures
            code == self@.exit_code(),
    {
        match &self.outcome {
            Some(Ok(_)) => 0,
            Some(Err(GitCliError::UserCancelled)) => 0,
            _ => 1,
        }
    }

    /// What the user is told of a run that failed: the failure's message, in
    /// red. Nothing is told of a run that ended well, that the user gave up,
    /// or that is not over.
    pub fn failure_report(&self) -> (out: Option<String>)
        ensures
            out is Some <==> self@.failed(),
            self@.failed() && self@.outcome.unwrap().unwrap_err().detail() is Some ==> out.unwrap()@
                == coloured(
                "\x1b[0;31m"@,
                "Error: "@ + self@.outcome.unwrap().unwrap_err().message(),
            ),
    {
        match &self.outcome {
            Some(Err(GitCliError::UserCancelled)) => None,
            Some(Err(e)) => {
                let text: String = String::from_str("Error: ").concat(e.message().as_str());
                Some(format_error_message(text.as_str()))
            },
            _ => None,
        }
    }
}

impl GitWorkflow {
    /// Moves the run into `phase`.
    fn go(&mut self, phase: Phase)
        ensures
            final(self)@ == old(self)@.at(phase),
    {
        self.phase = phase;
    }

    /// Ends the run.
    fn stop(&mut self, result: Result<(), GitCliError>)
        ensures
            final(self)@ == old(self)@.stop(result_view(result)).state,
    {
        self.phase = Phase::Done;
        self.outcome = Some(result);
    }

    /// Takes an event that is no answer to the open question: the user gave
    /// up, the question could not be put, or the event belongs elsewhere.
    fn unanswered(&mut self, event: Event) -> (notices: Vec<Notice>)
        requires
            old(self)@.awaited() is Ask,
            !(event@ is Cancelled) && !(event@ is PromptFailed) ==> old(self)@.advance(event@) == old(
                self,
            )@.stay(),
            !(event@ is Ran),
        ensures
            final(self)@ == old(self)@.advance(event@).state,
            notices.deep_view() == old(self)@.advance(event@).notices,
    {
        match event {
            Event::Cancelled => {
                self.stop(Err(GitCliError::UserCancelled));
            },
            Event::PromptFailed(e) => {
                self.stop(Err(GitCliError::InquireError(e)));
            },
            _ => {},
        }
        let notices: Vec<Notice> = Vec::new();
        notices
    }

    /// The repository was looked for.
    fn after_verify(&mut self, outcome: &ProcessOutcome) -> (notices: Vec<Notice>)
        ensures
            final(self)@ == old(self)@.after_verify(outcome@).state,
            notices.deep_view() == old(self)@.after_verify(outcome@).notices,
    {
        reveal(WorkflowView::after_verify);
        match self.git_service.verify_git_initialized(outcome) {
            Ok(_) => {
                self.go(Phase::ReadingStatus);
            },
            Err(e) => {
                self.stop(Err(e));
            },
        }
        let notices: Vec<Notice> = Vec::new();
        notices
    }

    /// Selects all changes, to be staged with one command.
    fn stage_everything(&mut self)
        ensures
            final(self)@ == old(self)@.stage_everything().state,
            old(self)@.stage_everything().notices == Seq::<NoticeView>::empty(),
    {
        reveal(WorkflowView::stage_everything);
        self.selected = paths(&self.changes);
        self.phase = Phase::StagingAll;
    }

    /// The status was read.
    fn after_status(&mut self, outcome: &ProcessOutcome) -> (notices: Vec<Notice>)
        ensures
            final(self)@ == old(self)@.after_status(outcome@).state,
            notices.deep_view() == old(self)@.after_status(outcome@).notices,
    {
        reveal(WorkflowView::after_status);
        let mut notices: Vec<Notice> = Vec::new();
        match self.git_service.get_status(outcome) {
            Err(e) => {
                self.stop(Err(e));
            },
            Ok(changes) => {
                if changes.len() == 0 {
                    tell(&mut notices, Level::Info, String::from_str("No changes to commit."));
                    self.stop(Ok(()));
                } else {
                    inform(self.ui_service.show_changes(changes.as_slice()), &mut notices);
                    self.changes = changes;
                    if self.app_config.non_interactive {
                        self.stage_everything();
                    } else {
                        self.go(Phase::AskingStageAll);
                    }
                }
            },
        }
        notices
    }

    /// Settles what is to be staged: everything, or what the user picks.
    fn stage_files(&mut self, event: Event) -> (notices: Vec<Notice>)
        requires
            old(self)@.phase == Phase::AskingStageAll || old(self)@.phase == Phase::AskingFiles,
            !(event@ is Ran),
        ensures
            final(self)@ == old(self)@.advance(event@).state,
            notices.deep_view() == old(self)@.advance(event@).notices,
    {
        match self.phase {
            Phase::AskingStageAll => match event {
                Event::Confirmed(yes) => {
                    reveal(WorkflowView::after_stage_all_answer);
                    if yes {
                        self.stage_everything();
                    } else {
                        self.go(Phase::AskingFiles);
                    }
                    self.unmoved()
                },
                other => self.unanswered(other),
            },
            _ => match event {
                Event::Picked(picked) => {
                    reveal(WorkflowView::after_files_picked);
                    let selected: Vec<String> = self.ui_service.select_files_to_commit(
                        self.changes.as_slice(),
                        picked.as_slice(),
                    );
                    if selected.len() == 0 {
                        self.stop(Err(GitCliError::NoChanges));
                    } else {
                        self.selected = selected;
                        self.phase = Phase::StagingSelected;
                    }
                    self.unmoved()
                },
                other => self.unanswered(other),
            },
        }
    }

    /// The selection was staged.
    fn after_staged(&mut self, outcome: &ProcessOutcome) -> (notices: Vec<Notice>)
        ensures
            final(self)@ == old(self)@.after_staged(outcome@).state,
            notices.deep_view() == old(self)@.after_staged(outcome@).notices,
    {
        reveal(WorkflowView::after_staged);
        let mut notices: Vec<Notice> = Vec::new();
        match self.git_service.add_files(outcome) {
            Err(e) => {
                self.stop(Err(e));
            },
            Ok(_) => {
                let text: String = String::from_str("Staged ").concat(
                    decimal_string(self.selected.len()).as_str(),
                ).concat(" files");
                tell(&mut notices, Level::Info, text);
                self.begin_emoji(&mut notices);
            },
        }
        notices
    }

    /// Settles the emoji.
    fn begin_emoji(&mut self, notices: &mut Vec<Notice>)
        ensures
            final(self)@ == old(self)@.begin_emoji().state,
            final(notices).deep_view() == old(notices).deep_view() + old(self)@.begin_emoji().notices,
    {
        reveal(WorkflowView::begin_emoji);
        let found: Option<Option<usize>> = match &self.app_config.emoji {
            Some(value) => {
                proof {
                    lemma_first_answering(self.emojis@, value@);
                }
                Some(self.emojis.position(value))
            },
            None => None,
        };
        match found {
            Some(Some(i)) => {
                self.glyph = self.emojis.emojis[i].emoji.clone();
                self.begin_title(notices);
            },
            Some(None) => {
                self.stop(Err(GitCliError::InvalidEmoji));
            },
            None => {
                if self.app_config.non_interactive {
                    self.stop(Err(GitCliError::InvalidEmoji));
                } else {
                    self.go(Phase::AskingEmoji);
                }
            },
        }
    }

    /// Settles the title.
    fn begin_title(&mut self, notices: &mut Vec<Notice>)
        ensures
            final(self)@ == old(self)@.begin_title().state,
            final(notices).deep_view() == old(notices).deep_view() + old(self)@.begin_title().notices,
    {
        reveal(WorkflowView::begin_title);
        let given: Option<String> = self.app_config.title.clone();
        match given {
            Some(title) => {
                match self.ui_service.check_title(title.as_str()) {
                    Ok(_) => {
                        self.title = title;
                        self.begin_body();
                    },
                    Err(e) => {
                        if self.app_config.non_interactive {
                            self.stop(Err(e));
                        } else {
                            tell(notices, Level::Error, e.message());
                            self.go(Phase::AskingTitle);
                        }
                    },
                }
            },
            None => {
                if self.app_config.non_interactive {
                    self.stop(
                        Err(
                            GitCliError::ValidationError(
                                String::from_str("A title is required in non-interactive mode"),
                            ),
                        ),
                    );
                } else {
                    self.go(Phase::AskingTitle);
                }
            },
        }
    }

    /// Settles the body.
    fn begin_body(&mut self)
        ensures
            final(self)@ == old(self)@.begin_body().state,
            old(self)@.begin_body().notices == Seq::<NoticeView>::empty(),
    {
        reveal(WorkflowView::begin_body);
        let given: Option<String> = self.app_config.body.clone();
        match given {
            Some(body) => {
                match self.ui_service.validate_commit_body(body.as_str()) {
                    Ok(_) => {
                        self.body = Some(body);
                        self.phase = Phase::Committing;
                    },
                    Err(e) => {
                        self.stop(Err(e));
                    },
                }
            },
            None => {
                if self.app_config.non_interactive {
                    self.body = None;
                    self.phase = Phase::Committing;
                } else {
                    self.go(Phase::AskingBody);
                }
            },
        }
    }

    /// The user picked an emoji.
    fn after_emoji_picked(&mut self, picked: &Vec<usize>) -> (notices: Vec<Notice>)
        ensures
            final(self)@ == old(self)@.after_emoji_picked(picked@).state,
            notices.deep_view() == old(self)@.after_emoji_picked(picked@).notices,
    {
        reveal(WorkflowView::after_emoji_picked);
        let mut notices: Vec<Notice> = Vec::new();
        match self.ui_service.select_emoji(&self.emojis, picked.as_slice()) {
            Ok(emoji) => {
                self.glyph = emoji.emoji;
                self.begin_title(&mut notices);
            },
            Err(e) => {
                self.stop(Err(e));
            },
        }
        notices
    }

    /// The user entered a title.
    fn after_title_entered(&mut self, text: String) -> (notices: Vec<Notice>)
        ensures
            final(self)@ == old(self)@.after_title_entered(text@).state,
            notices.deep_view() == old(self)@.after_title_entered(text@).notices,
    {
        reveal(WorkflowView::after_title_entered);
        let mut notices: Vec<Notice> = Vec::new();
        match self.ui_service.get_commit_title(text) {
            Ok(title) => {
                self.title = title;
                self.begin_body();
            },
            Err(e) => {
                tell(&mut notices, Level::Error, e.message());
                tell(&mut notices, Level::Info, String::from_str("Please try again."));
            },
        }
        notices
    }

    /// The user entered a body.
    fn after_body_entered(&mut self, text: String) -> (notices: Vec<Notice>)
        ensures
            final(self)@ == old(self)@.after_body_entered(text@).state,
            notices.deep_view() == old(self)@.after_body_entered(text@).notices,
    {
        reveal(WorkflowView::after_body_entered);
        match self.ui_service.get_commit_message(text) {
            Ok(body) => {
                self.body = body;
                self.phase = Phase::Committing;
            },
            Err(e) => {
                self.stop(Err(e));
            },
        }
        let notices: Vec<Notice> = Vec::new();
        notices
    }

    /// Gathers what the commit message is made of: the emoji, the title and the body.
    fn get_commit_details(&mut self, event: Event) -> (notices: Vec<Notice>)
        requires
            old(self)@.phase == Phase::AskingEmoji || old(self)@.phase == Phase::AskingTitle || old(
                self,
            )@.phase == Phase::AskingBody,
            !(event@ is Ran),
        ensures
            final(self)@ == old(self)@.advance(event@).state,
            notices.deep_view() == old(self)@.advance(event@).notices,
    {
        match self.phase {
            Phase::AskingEmoji => match event {
                Event::Picked(picked) => self.after_emoji_picked(&picked),
                other => self.unanswered(other),
            },
            Phase::AskingTitle => match event {
                Event::Entered(text) => self.after_title_entered(text),
                other => self.unanswered(other),
            },
            _ => match event {
                Event::Entered(text) => self.after_body_entered(text),
                other => self.unanswered(other),
            },
        }
    }

    /// Adds the notice of the commit that was made.
    fn tell_committed(&self, notices: &mut Vec<Notice>)
        ensures
            final(notices).deep_view() == old(notices).deep_view().push(self@.committed_notice()),
    {
        tell_of(notices, Level::Success, "Successfully committed with emoji: ", self.glyph.as_str());
    }

    /// Makes the commit, and tries once more after a refusal where the
    /// configuration says so.
    fn attempt_commit(&mut self, outcome: &ProcessOutcome) -> (notices: Vec<Notice>)
        requires
            old(self)@.phase == Phase::Committing || old(self)@.phase == Phase::Restaging || old(
                self,
            )@.phase == Phase::Recommitting,
        ensures
            final(self)@ == old(self)@.after_run(outcome@).state,
            notices.deep_view() == old(self)@.after_run(outcome@).notices,
    {
        let mut notices: Vec<Notice> = Vec::new();
        match self.phase {
            Phase::Committing => {
                reveal(WorkflowView::after_commit);
                match self.git_service.commit(outcome) {
                    Err(e) => {
                        self.stop(Err(e));
                    },
                    Ok(made) => {
                        if made {
                            self.tell_committed(&mut notices);
                            self.go(Phase::ReadingBranch);
                        } else if self.ui_service.config.hooks.retry_on_failure {
                            tell(
                                &mut notices,
                                Level::Warning,
                                String::from_str(
                                    "Pre-commit hook failed. Re-staging files and retrying...",
                                ),
                            );
                            self.go(Phase::Restaging);
                        } else {
                            self.stop(
                                Err(GitCliError::GitCommandFailed(String::from_str("Commit failed"))),
                            );
                        }
                    },
                }
            },
            Phase::Restaging => {
                reveal(WorkflowView::after_restaged);
                match self.git_service.add_files(outcome) {
                    Err(e) => {
                        self.stop(Err(e));
                    },
                    Ok(_) => {
                        tell(
                            &mut notices,
                            Level::Success,
                            String::from_str("Successfully re-staged changes"),
                        );
                        self.go(Phase::Recommitting);
                    },
                }
            },
            _ => {
                reveal(WorkflowView::after_recommit);
                match self.git_service.commit(outcome) {
                    Err(e) => {
                        self.stop(Err(e));
                    },
                    Ok(made) => {
                        if made {
                            tell(
                                &mut notices,
                                Level::Success,
                                String::from_str("Commit successful after retry"),
                            );
                            self.tell_committed(&mut notices);
                            self.go(Phase::ReadingBranch);
                        } else {
                            tell(
                                &mut notices,
                                Level::Error,
                                String::from_str("Commit failed after retry"),
                            );
                            self.stop(
                                Err(GitCliError::GitCommandFailed(String::from_str("Commit failed"))),
                            );
                        }
                    },
                }
            },
        }
        notices
    }

    /// Settles whether to push.
    fn begin_push(&mut self)
        ensures
            final(self)@ == old(self)@.begin_push().state,
            old(self)@.begin_push().notices == Seq::<NoticeView>::empty(),
    {
        reveal(WorkflowView::begin_push);
        match self.ui_service.confirm_push(self.app_config.non_interactive) {
            Some(push) => {
                if push {
                    self.go(Phase::Pushing);
                } else {
                    self.go(Phase::ReadingLog);
                }
            },
            None => {
                self.go(Phase::AskingPush);
            },
        }
    }

    /// Adds a notice that tells of `failure`, after the words `head`.
    fn tell_failure(notices: &mut Vec<Notice>, level: Level, head: &str, failure: &GitCliError)
        requires
            failure@.detail() is Some,
        ensures
            final(notices).deep_view() == old(notices).deep_view().push(
                NoticeView { level, text: head@ + failure@.message() },
            ),
    {
        tell_of(notices, level, head, failure.message().as_str());
    }
}

impl GitWorkflow {
    /// The branch was read.
    fn after_branch(&mut self, outcome: &ProcessOutcome) -> (notices: Vec<Notice>)
        ensures
            final(self)@ == old(self)@.after_branch(outcome@).state,
            notices.deep_view() == old(self)@.after_branch(outcome@).notices,
    {
        reveal(WorkflowView::after_branch);
        let mut notices: Vec<Notice> = Vec::new();
        match self.git_service.get_current_branch(outcome) {
            Err(e) => {
                Self::tell_failure(
                    &mut notices,
                    Level::Warning,
                    "Failed to read current branch: ",
                    &e,
                );
                self.go(Phase::ReadingLog);
            },
            Ok(branch) => {
                tell_of(&mut notices, Level::Info, "Current branch: ", branch.as_str());
                self.branch = branch;
                self.phase = Phase::Fetching;
            },
        }
        notices
    }

    /// The remote was fetched.
    fn after_fetch(&mut self, outcome: &ProcessOutcome) -> (notices: Vec<Notice>)
        ensures
            final(self)@ == old(self)@.after_fetch(outcome@).state,
            notices.deep_view() == old(self)@.after_fetch(outcome@).notices,
    {
        reveal(WorkflowView::after_fetch);
        let mut notices: Vec<Notice> = Vec::new();
        match self.git_service.fetch_origin(outcome) {
            Err(e) => {
                Self::tell_failure(
                    &mut notices,
                    Level::Warning,
                    "Failed to fetch from remote: ",
                    &e,
                );
                self.go(Phase::ReadingLog);
            },
            Ok(_) => {
                self.go(Phase::ReadingLocalHead);
            },
        }
        notices
    }

    /// The local head was read.
    fn after_local_head(&mut self, outcome: &ProcessOutcome) -> (notices: Vec<Notice>)
        ensures
            final(self)@ == old(self)@.after_local_head(outcome@).state,
            notices.deep_view() == old(self)@.after_local_head(outcome@).notices,
    {
        reveal(WorkflowView::after_local_head);
        let mut notices: Vec<Notice> = Vec::new();
        match self.git_service.local_head(outcome) {
            Err(e) => {
                Self::tell_failure(
                    &mut notices,
                    Level::Warning,
                    "Failed to check remote changes: ",
                    &e,
                );
                self.begin_push();
            },
            Ok(head) => {
                self.local_head = head;
                self.phase = Phase::ReadingRemoteHead;
            },
        }
        notices
    }

    /// The remote head was read.
    fn after_remote_head(&mut self, outcome: &ProcessOutcome) -> (notices: Vec<Notice>)
        ensures
            final(self)@ == old(self)@.after_remote_head(outcome@).state,
            notices.deep_view() == old(self)@.after_remote_head(outcome@).notices,
    {
        reveal(WorkflowView::after_remote_head);
        let mut notices: Vec<Notice> = Vec::new();
        match self.git_service.has_remote_changes(&self.local_head, outcome) {
            Err(e) => {
                Self::tell_failure(
                    &mut notices,
                    Level::Warning,
                    "Failed to check remote changes: ",
                    &e,
                );
                self.begin_push();
            },
            Ok(differs) => {
                if differs {
                    tell(
                        &mut notices,
                        Level::Info,
                        String::from_str("There are changes to pull from the remote repository."),
                    );
                    self.go(Phase::Pulling);
                } else {
                    tell(
                        &mut notices,
                        Level::Info,
                        String::from_str("No changes to pull from remote"),
                    );
                    self.begin_push();
                }
            },
        }
        notices
    }

    /// The pull was tried.
    fn after_pull(&mut self, outcome: &ProcessOutcome) -> (notices: Vec<Notice>)
        ensures
            final(self)@ == old(self)@.after_pull(outcome@).state,
            notices.deep_view() == old(self)@.after_pull(outcome@).notices,
    {
        reveal(WorkflowView::after_pull);
        let mut notices: Vec<Notice> = Vec::new();
        match self.git_service.pull(outcome) {
            Ok(_) => {
                tell(
                    &mut notices,
                    Level::Success,
                    String::from_str("Successfully pulled changes from remote"),
                );
                self.begin_push();
            },
            Err(_) => {
                tell(
                    &mut notices,
                    Level::Warning,
                    String::from_str("Pull failed, trying with stash..."),
                );
                self.go(Phase::Stashing);
            },
        }
        notices
    }

    /// The local changes were stashed.
    fn after_stash(&mut self, outcome: &ProcessOutcome) -> (notices: Vec<Notice>)
        ensures
            final(self)@ == old(self)@.after_stash(outcome@).state,
            notices.deep_view() == old(self)@.after_stash(outcome@).notices,
    {
        reveal(WorkflowView::after_stash);
        let mut notices: Vec<Notice> = Vec::new();
        match self.git_service.stash(outcome) {
            Ok(_) => {
                self.go(Phase::PullingAgain);
            },
            Err(e) => {
                Self::tell_failure(&mut notices, Level::Error, "Failed to stash: ", &e);
                self.begin_push();
            },
        }
        notices
    }

    /// The pull was tried again.
    fn after_second_pull(&mut self, outcome: &ProcessOutcome) -> (notices: Vec<Notice>)
        ensures
            final(self)@ == old(self)@.after_second_pull(outcome@).state,
            notices.deep_view() == old(self)@.after_second_pull(outcome@).notices,
    {
        reveal(WorkflowView::after_second_pull);
        let mut notices: Vec<Notice> = Vec::new();
        match self.git_service.pull(outcome) {
            Ok(_) => {
                tell(
                    &mut notices,
                    Level::Success,
                    String::from_str("Successfully pulled changes"),
                );
            },
            Err(e) => {
                Self::tell_failure(&mut notices, Level::Error, "Failed to pull: ", &e);
            },
        }
        self.go(Phase::PoppingStash);
        notices
    }

    /// The stash was restored, or not.
    fn after_pop(&mut self, outcome: &ProcessOutcome) -> (notices: Vec<Notice>)
        ensures
            final(self)@ == old(self)@.after_pop(outcome@).state,
            notices.deep_view() == old(self)@.after_pop(outcome@).notices,
    {
        reveal(WorkflowView::after_pop);
        let mut notices: Vec<Notice> = Vec::new();
        match self.git_service.stash_pop(outcome) {
            Ok(_) => {
                tell(
                    &mut notices,
                    Level::Success,
                    String::from_str("Successfully restored stashed changes"),
                );
            },
            Err(e) => {
                Self::tell_failure(&mut notices, Level::Warning, "Failed to restore stash: ", &e);
            },
        }
        self.begin_push();
        notices
    }

    /// The push was tried.
    fn after_push(&mut self, outcome: &ProcessOutcome) -> (notices: Vec<Notice>)
        ensures
            final(self)@ == old(self)@.after_push(outcome@).state,
            notices.deep_view() == old(self)@.after_push(outcome@).notices,
    {
        reveal(WorkflowView::after_push);
        let mut notices: Vec<Notice> = Vec::new();
        match self.git_service.push(outcome) {
            Ok(_) => {
                tell_of(
                    &mut notices,
                    Level::Success,
                    "Successfully pushed to origin/",
                    self.branch.as_str(),
                );
            },
            Err(e) => {
                Self::tell_failure(&mut notices, Level::Error, "Failed to push: ", &e);
            },
        }
        self.go(Phase::ReadingLog);
        notices
    }

    /// The user said whether to push.
    fn after_push_answer(&mut self, yes: bool) -> (notices: Vec<Notice>)
        ensures
            final(self)@ == old(self)@.after_push_answer(yes).state,
            notices.deep_view() == old(self)@.after_push_answer(yes).notices,
    {
        reveal(WorkflowView::after_push_answer);
        if yes {
            self.go(Phase::Pushing);
        } else {
            self.go(Phase::ReadingLog);
        }
        let notices: Vec<Notice> = Vec::new();
        notices
    }

    /// Brings the branch up to date with the remote, as far as that goes
    /// without the user's help. Nothing that fails here ends the run.
    fn handle_remote_operations(&mut self, outcome: &ProcessOutcome) -> (notices: Vec<Notice>)
        requires
            old(self)@.awaited() is Run,
            old(self)@.phase.follows_commit(),
            old(self)@.phase != Phase::Pushing,
            old(self)@.phase != Phase::ReadingLog,
        ensures
            final(self)@ == old(self)@.after_run(outcome@).state,
            notices.deep_view() == old(self)@.after_run(outcome@).notices,
    {
        match self.phase {
            Phase::ReadingBranch => self.after_branch(outcome),
            Phase::Fetching => self.after_fetch(outcome),
            Phase::ReadingLocalHead => self.after_local_head(outcome),
            Phase::ReadingRemoteHead => self.after_remote_head(outcome),
            Phase::Pulling => self.after_pull(outcome),
            Phase::Stashing => self.after_stash(outcome),
            Phase::PullingAgain => self.after_second_pull(outcome),
            _ => self.after_pop(outcome),
        }
    }

    /// Shows the last commits. If they cannot be read nothing is shown, and
    /// the run ends well all the same.
    fn show_commit_summary(&mut self, outcome: &ProcessOutcome) -> (notices: Vec<Notice>)
        ensures
            final(self)@ == old(self)@.after_log(outcome@).state,
            notices.deep_view() == old(self)@.after_log(outcome@).notices,
    {
        reveal(WorkflowView::after_log);
        let mut notices: Vec<Notice> = Vec::new();
        match self.git_service.get_recent_commits(outcome) {
            Ok(commits) => {
                inform(self.ui_service.show_recent_commits(commits.as_slice()), &mut notices);
            },
            Err(_) => {},
        }
        self.stop(Ok(()));
        notices
    }

    /// Takes the end of the command that was asked for.
    fn after_run(&mut self, outcome: &ProcessOutcome) -> (notices: Vec<Notice>)
        ensures
            final(self)@ == old(self)@.after_run(outcome@).state,
            notices.deep_view() == old(self)@.after_run(outcome@).notices,
    {
        match self.phase {
            Phase::VerifyingRepo => self.after_verify(outcome),
            Phase::ReadingStatus => self.after_status(outcome),
            Phase::StagingAll => self.after_staged(outcome),
            Phase::StagingSelected => self.after_staged(outcome),
            Phase::Committing => self.attempt_commit(outcome),
            Phase::Restaging => self.attempt_commit(outcome),
            Phase::Recommitting => self.attempt_commit(outcome),
            Phase::Pushing => self.after_push(outcome),
            Phase::ReadingLog => self.show_commit_summary(outcome),
            Phase::AskingStageAll => self.unmoved(),
            Phase::AskingFiles => self.unmoved(),
            Phase::AskingEmoji => self.unmoved(),
            Phase::AskingTitle => self.unmoved(),
            Phase::AskingBody => self.unmoved(),
            Phase::AskingPush => self.unmoved(),
            Phase::Done => self.unmoved(),
            _ => self.handle_remote_operations(outcome),
        }
    }

    /// Takes the answer to the question that was asked, or the news that
    /// there is none.
    fn after_answer(&mut self, event: Event) -> (notices: Vec<Notice>)
        requires
            !(event@ is Ran),
        ensures
            final(self)@ == old(self)@.advance(event@).state,
            notices.deep_view() == old(self)@.advance(event@).notices,
    {
        match self.phase {
            Phase::AskingStageAll => self.stage_files(event),
            Phase::AskingFiles => self.stage_files(event),
            Phase::AskingEmoji => self.get_commit_details(event),
            Phase::AskingTitle => self.get_commit_details(event),
            Phase::AskingBody => self.get_commit_details(event),
            Phase::AskingPush => match event {
                Event::Confirmed(yes) => self.after_push_answer(yes),
                other => self.unanswered(other),
            },
            _ => self.unmoved(),
        }
    }

    /// Takes the answer to the open request and goes on from it. What is
    /// returned is what the user is to be told; what the run asks for next is
    /// `awaited`. An event that does not answer the open request changes nothing.
    pub fn execute(&mut self, event: Event) -> (notices: Vec<Notice>)
        ensures
            final(self)@ == old(self)@.advance(event@).state,
            notices.deep_view() == old(self)@.advance(event@).notices,
            old(self)@.sound() ==> final(self)@.sound(),
    {
        proof {
            if self@.sound() {
                lemma_advance_keeps_sound(self@, event@);
            }
        }
        match event {
            Event::Ran(outcome) => self.after_run(&outcome),
            other => self.after_answer(other),
        }
    }

    /// The step that changes nothing.
    fn unmoved(&self) -> (notices: Vec<Notice>)
        ensures
            notices.deep_view() == Seq::<NoticeView>::empty(),
    {
        let notices: Vec<Notice> = Vec::new();
        notices
    }
}

impl GitWorkflow {
    /// The words of the command that the run asks for, without the name of
    /// the program; none if it asks for no command.
    pub fn command_line(&self) -> (out: Vec<String>)
        ensures
            out.deep_view() == self@.command_words(),
    {
        match self.awaited() {
            Action::Run(GitOp::VerifyRepo) => self.git_service.verify_git_initialized_args(),
            Action::Run(GitOp::Status) => self.git_service.get_status_args(),
            Action::Run(GitOp::AddAll) => {
                let none: Vec<String> = Vec::new();
                self.git_service.add_files_args(&none)
            },
            Action::Run(GitOp::AddSelected) => self.git_service.add_files_args(&self.selected),
            Action::Run(GitOp::Commit) => {
                let headline: String = self.glyph.clone().concat(" ").concat(self.title.as_str());
                let body: Option<&str> = match &self.body {
                    Some(text) => Some(text.as_str()),
                    None => None,
                };
                self.git_service.commit_args(headline.as_str(), body)
            },
            Action::Run(GitOp::CurrentBranch) => self.git_service.get_current_branch_args(),
            Action::Run(GitOp::Fetch) => self.git_service.fetch_origin_args(self.branch.as_str()),
            Action::Run(GitOp::LocalHead) => self.git_service.local_head_args(),
            Action::Run(GitOp::RemoteHead) => self.git_service.remote_head_args(
                self.branch.as_str(),
            ),
            Action::Run(GitOp::Pull) => self.git_service.pull_args(self.branch.as_str(), true),
            Action::Run(GitOp::Stash) => self.git_service.stash_args(),
            Action::Run(GitOp::StashPop) => self.git_service.stash_pop_args(),
            Action::Run(GitOp::Push) => self.git_service.push_args(self.branch.as_str()),
            Action::Run(GitOp::Log) => self.git_service.get_recent_commits_args(5),
            _ => {
                let none: Vec<String> = Vec::new();
                none
            },
        }
    }

    /// The question that the run asks for, in words; nothing if it asks for none.
    pub fn question(&self) -> (out: String)
        ensures
            out@ == self@.question(),
    {
        match self.awaited() {
            Action::Ask(Prompt::StageAll) => String::from_str(
                "Do you want to add all changes to the commit?",
            ),
            Action::Ask(Prompt::Files) => String::from_str("Select changes to add to the commit:"),
            Action::Ask(Prompt::Emoji) => String::from_str(
                "Select an emoji for your commit message:",
            ),
            Action::Ask(Prompt::Title) => String::from_str("Enter commit title:"),
            Action::Ask(Prompt::Body) => String::from_str("Enter commit message (optional):"),
            Action::Ask(Prompt::Push) => String::from_str(
                "Do you want to push the commits to the remote repository?",
            ),
            _ => String::new(),
        }
    }

    /// What the user may choose from, where the question is a choice. An
    /// answer names its choices by their places in this list.
    pub fn choices(&self) -> (out: Vec<String>)
        ensures
            out.deep_view() == self@.choices(),
    {
        match self.awaited() {
            Action::Ask(Prompt::Files) => self.ui_service.file_choices(self.changes.as_slice()),
            Action::Ask(Prompt::Emoji) => self.ui_service.emoji_choices(&self.emojis),
            _ => {
                let none: Vec<String> = Vec::new();
                none
            },
        }
    }

    /// The title that is suggested while the user has entered none.
    pub fn placeholder(&self) -> (out: String)
        ensures
            out@ == self@.placeholder(),
    {
        match self.awaited() {
            Action::Ask(Prompt::Title) => self.ui_service.generate_smart_placeholder(
                self.changes.as_slice(),
            ),
            _ => String::new(),
        }
    }

    /// The help that goes with the question.
    pub fn help(&self) -> (out: String)
        ensures
            out@ == self@.help(),
    {
        match self.awaited() {
            Action::Ask(Prompt::Title) => self.ui_service.title_help(),
            _ => String::new(),
        }
    }
}

} // verus!
