//! What holds of every run of the workflow.

use crate::errors::GitCliErrorView;
use crate::git::add_result;
use crate::git::add_words;
use crate::git::commit_result;
use crate::git::pull_result;
use crate::git::stash_pop_result;
use crate::git::stash_result;
use crate::git::status_result;
use crate::git::ChangeView;
use crate::git::ProcessOutcomeView;
use crate::emojis::first_answering;
use crate::ui::entered_title;
use crate::ui::picked_emoji;
use crate::ui::lemma_entries_are_checked;
use crate::ui::body_verdict;
use crate::ui::title_admission;
use crate::ui::title_verdict;
use crate::workflow::model::Action;
use crate::workflow::model::EventView;
use crate::workflow::model::GitOp;
use crate::workflow::model::Level;
use crate::workflow::model::NoticeView;
use crate::workflow::model::Phase;
use crate::workflow::model::WorkflowView;
use vstd::prelude::*;

verus! {

/// A run that has ended stays ended: no event changes it, and nothing more is told.
pub proof fn lemma_done_is_final(run: WorkflowView, event: EventView)
    requires
        run.phase == Phase::Done,
    ensures
        run.advance(event).state == run,
        run.advance(event).notices =~= Seq::<NoticeView>::empty(),
{
}

/// An empty change set ends the run well on the spot: the user is told that
/// there is nothing to commit, and no staging is ever asked for.
pub proof fn lemma_nothing_to_commit(run: WorkflowView, outcome: ProcessOutcomeView)
    requires
        run.phase == Phase::ReadingStatus,
        status_result(outcome) == Ok::<Seq<ChangeView>, GitCliErrorView>(Seq::empty()),
    ensures
        run.advance(EventView::Ran(outcome)).state.phase == Phase::Done,
        run.advance(EventView::Ran(outcome)).state.awaited() == Action::Finish,
        run.advance(EventView::Ran(outcome)).state.outcome == Some(
            Ok::<(), GitCliErrorView>(()),
        ),
        run.advance(EventView::Ran(outcome)).state.exit_code() == 0,
        run.advance(EventView::Ran(outcome)).notices =~= seq![
            NoticeView::info("No changes to commit."@),
        ],
{
    reveal(WorkflowView::after_status);
}

/// A commit that is refused is tried once more where the configuration says
/// so: the selection is staged anew, then the commit is asked for again with
/// the same words, and whatever comes of that is final. If it is made the
/// run goes on to the remote; if it is refused again the run fails.
pub proof fn lemma_commit_is_retried_once(
    run: WorkflowView,
    first: ProcessOutcomeView,
    staged: ProcessOutcomeView,
    second: ProcessOutcomeView,
)
    requires
        run.phase == Phase::Committing,
        run.config.hooks.retry_on_failure,
        commit_result(first) == Ok::<bool, GitCliErrorView>(false),
        add_result(staged) is Ok,
    ensures
        ({
            let one = run.advance(EventView::Ran(first)).state;
            let two = one.advance(EventView::Ran(staged)).state;
            let three = two.advance(EventView::Ran(second)).state;
            &&& one.awaited() == Action::Run(GitOp::AddSelected)
            &&& one.command_words() == add_words(run.selected)
            &&& two.awaited() == Action::Run(GitOp::Commit)
            &&& two.command_words() == run.command_words()
            &&& three.phase == Phase::ReadingBranch || three.phase == Phase::Done
            &&& commit_result(second) == Ok::<bool, GitCliErrorView>(true) ==> three.phase
                == Phase::ReadingBranch && three.outcome == run.outcome
            &&& commit_result(second) == Ok::<bool, GitCliErrorView>(false) ==> three.phase
                == Phase::Done && three.outcome == Some(
                Err::<(), GitCliErrorView>(WorkflowView::commit_refused()),
            )
            &&& commit_result(second) is Err ==> three.phase == Phase::Done && three.outcome
                matches Some(Err(_))
        }),
{
    lemma_refused_commit_step(run, first);
    let one = run.at(Phase::Restaging);
    lemma_restaged_once_step(one, staged);
    let two = run.at(Phase::Recommitting);
    lemma_second_commit_step(two, second);
    let three = two.advance(EventView::Ran(second)).state;
    match commit_result(second) {
        Ok(made) => {
            if made {
                assert(three == two.at(Phase::ReadingBranch));
            } else {
                assert(three == two.stop(Err(WorkflowView::commit_refused())).state);
            }
        },
        Err(e) => {
            assert(three == two.stop(Err(e)).state);
        },
    }
}

proof fn lemma_refused_commit_step(run: WorkflowView, first: ProcessOutcomeView)
    requires
        run.phase == Phase::Committing,
        run.config.hooks.retry_on_failure,
        commit_result(first) == Ok::<bool, GitCliErrorView>(false),
    ensures
        run.advance(EventView::Ran(first)).state == run.at(Phase::Restaging),
{
    reveal(WorkflowView::after_commit);
}

proof fn lemma_restaged_once_step(run: WorkflowView, staged: ProcessOutcomeView)
    requires
        run.phase == Phase::Restaging,
        add_result(staged) is Ok,
    ensures
        run.advance(EventView::Ran(staged)).state == run.at(Phase::Recommitting),
{
    reveal(WorkflowView::after_restaged);
}

proof fn lemma_second_commit_step(run: WorkflowView, second: ProcessOutcomeView)
    requires
        run.phase == Phase::Recommitting,
    ensures
        ({
            let three = run.advance(EventView::Ran(second)).state;
            &&& commit_result(second) == Ok::<bool, GitCliErrorView>(true) ==> three == run.at(
                Phase::ReadingBranch,
            )
            &&& commit_result(second) == Ok::<bool, GitCliErrorView>(false) ==> three == run.stop(
                Err(WorkflowView::commit_refused()),
            ).state
            &&& commit_result(second) matches Err(e) ==> three == run.stop(Err(e)).state
        }),
{
    reveal(WorkflowView::after_recommit);
}

/// Without the retry configured, a commit that is refused ends the run at once.
pub proof fn lemma_no_retry_unless_configured(run: WorkflowView, first: ProcessOutcomeView)
    requires
        run.phase == Phase::Committing,
        !run.config.hooks.retry_on_failure,
        commit_result(first) == Ok::<bool, GitCliErrorView>(false),
    ensures
        run.advance(EventView::Ran(first)).state.phase == Phase::Done,
        run.advance(EventView::Ran(first)).state.outcome == Some(
            Err::<(), GitCliErrorView>(WorkflowView::commit_refused()),
        ),
{
    reveal(WorkflowView::after_commit);
}

/// After a pull that fails the run asks for a stash, then for the pull
/// again, then for the stash to be restored, in that order and whatever
/// came of the second pull. A stash that cannot be restored is reported as
/// a warning, and the run goes on.
pub proof fn lemma_stash_pull_pop(
    run: WorkflowView,
    first: ProcessOutcomeView,
    stashed: ProcessOutcomeView,
    second: ProcessOutcomeView,
    popped: ProcessOutcomeView,
)
    requires
        run.phase == Phase::Pulling,
        pull_result(first) is Err,
        stash_result(stashed) is Ok,
    ensures
        ({
            let one = run.advance(EventView::Ran(first)).state;
            let two = one.advance(EventView::Ran(stashed)).state;
            let three = two.advance(EventView::Ran(second)).state;
            let last = three.advance(EventView::Ran(popped));
            &&& one.awaited() == Action::Run(GitOp::Stash)
            &&& two.awaited() == Action::Run(GitOp::Pull)
            &&& three.awaited() == Action::Run(GitOp::StashPop)
            &&& last.state.outcome == run.outcome
            &&& last.state.phase == Phase::AskingPush || last.state.phase == Phase::Pushing
                || last.state.phase == Phase::ReadingLog
            &&& last.notices.len() == 1
            &&& stash_pop_result(popped) matches Err(e) ==> last.notices[0] == NoticeView::warning(
                "Failed to restore stash: "@ + e.message(),
            )
            &&& stash_pop_result(popped) is Ok ==> last.notices[0].level == Level::Success
        }),
{
    lemma_failed_pull_step(run, first);
    lemma_stashed_step(run.at(Phase::Stashing), stashed);
    lemma_second_pull_leads_to_pop(run.at(Phase::PullingAgain), second);
    lemma_restoring_the_stash(run.at(Phase::PoppingStash), popped);
}

proof fn lemma_failed_pull_step(run: WorkflowView, first: ProcessOutcomeView)
    requires
        run.phase == Phase::Pulling,
        pull_result(first) is Err,
    ensures
        run.advance(EventView::Ran(first)).state == run.at(Phase::Stashing),
{
    reveal(WorkflowView::after_pull);
}

proof fn lemma_stashed_step(run: WorkflowView, stashed: ProcessOutcomeView)
    requires
        run.phase == Phase::Stashing,
        stash_result(stashed) is Ok,
    ensures
        run.advance(EventView::Ran(stashed)).state == run.at(Phase::PullingAgain),
{
    reveal(WorkflowView::after_stash);
}

proof fn lemma_second_pull_leads_to_pop(run: WorkflowView, second: ProcessOutcomeView)
    requires
        run.phase == Phase::PullingAgain,
    ensures
        run.advance(EventView::Ran(second)).state == run.at(Phase::PoppingStash),
{
    reveal(WorkflowView::after_second_pull);
}

/// The stash is restored, or the user is warned that it is not; either way
/// the run goes on to the push.
proof fn lemma_restoring_the_stash(run: WorkflowView, popped: ProcessOutcomeView)
    requires
        run.phase == Phase::PoppingStash,
    ensures
        ({
            let last = run.advance(EventView::Ran(popped));
            &&& last.state.outcome == run.outcome
            &&& last.state.phase == Phase::AskingPush || last.state.phase == Phase::Pushing
                || last.state.phase == Phase::ReadingLog
            &&& last.notices.len() == 1
            &&& stash_pop_result(popped) matches Err(e) ==> last.notices[0] == NoticeView::warning(
                "Failed to restore stash: "@ + e.message(),
            )
            &&& stash_pop_result(popped) is Ok ==> last.notices[0].level == Level::Success
        }),
{
    lemma_begin_push(run);
    reveal(WorkflowView::after_pop);
}

/// The settings and the catalogue are the same in both.
pub open spec fn same_settings(a: WorkflowView, b: WorkflowView) -> bool {
    &&& a.config == b.config
    &&& a.app_config == b.app_config
    &&& a.emojis == b.emojis
}

/// The phase is one of the exchange with the remote and the summary, or the end.
pub open spec fn past_commit(run: WorkflowView) -> bool {
    run.phase.follows_commit() || run.phase == Phase::Done
}

/// What holds of every step from `run` to `next`: the settings are kept, a
/// sound run stays sound, there is no way back before the commit nor back to
/// an earlier phase.
pub open spec fn orderly(run: WorkflowView, next: WorkflowView) -> bool {
    &&& same_settings(run, next)
    &&& run.sound() ==> next.sound()
    &&& past_commit(run) ==> past_commit(next)
    &&& run.phase.order() <= next.phase.order()
}

/// What holds besides of a step that the end of a command makes: after the
/// commit it does not end the run in a failure.
pub open spec fn forgiving(run: WorkflowView, next: WorkflowView) -> bool {
    run.phase.follows_commit() && run.outcome is None ==> !(next.outcome matches Some(Err(_)))
}

proof fn lemma_begin_push(run: WorkflowView)
    ensures
        same_settings(run, run.begin_push().state),
        run.outcome is None ==> run.begin_push().state.sound(),
        run.begin_push().state.phase == Phase::AskingPush || run.begin_push().state.phase
            == Phase::Pushing || run.begin_push().state.phase == Phase::ReadingLog,
        run.begin_push().state.outcome == run.outcome,
        run.begin_push().notices.len() == 0,
{
    reveal(WorkflowView::begin_push);
}

proof fn lemma_begin_body(run: WorkflowView)
    requires
        title_admission(run.title, run.config.commit) is Ok,
    ensures
        same_settings(run, run.begin_body().state),
        run.outcome is None ==> run.begin_body().state.sound(),
        run.begin_body().state.phase.order() >= Phase::AskingBody.order(),
{
    reveal(WorkflowView::begin_body);
}

proof fn lemma_begin_title(run: WorkflowView)
    ensures
        same_settings(run, run.begin_title().state),
        run.outcome is None ==> run.begin_title().state.sound(),
        run.begin_title().state.phase.order() >= Phase::AskingTitle.order(),
{
    reveal(WorkflowView::begin_title);
    match run.app_config.title {
        Some(title) => {
            if title_admission(title, run.config.commit) is Ok {
                lemma_begin_body(WorkflowView { title, ..run });
            }
        },
        None => {},
    }
}

proof fn lemma_begin_emoji(run: WorkflowView)
    ensures
        same_settings(run, run.begin_emoji().state),
        run.outcome is None ==> run.begin_emoji().state.sound(),
        run.begin_emoji().state.phase.order() >= Phase::AskingEmoji.order(),
{
    reveal(WorkflowView::begin_emoji);
    match run.app_config.emoji {
        Some(value) => {
            match first_answering(run.emojis, value) {
                Some(i) => {
                    lemma_begin_title(WorkflowView { glyph: run.emojis[i].emoji, ..run });
                },
                None => {},
            }
        },
        None => {},
    }
}

proof fn lemma_staged_step(run: WorkflowView, outcome: ProcessOutcomeView)
    requires
        run.phase == Phase::StagingAll || run.phase == Phase::StagingSelected,
    ensures
        orderly(run, run.after_staged(outcome).state),
        forgiving(run, run.after_staged(outcome).state),
{
    reveal(WorkflowView::after_staged);
    lemma_begin_emoji(run);
}

proof fn lemma_verify_step(run: WorkflowView, outcome: ProcessOutcomeView)
    requires
        run.phase == Phase::VerifyingRepo,
    ensures
        orderly(run, run.after_verify(outcome).state),
        forgiving(run, run.after_verify(outcome).state),
{
    reveal(WorkflowView::after_verify);
}

proof fn lemma_status_step(run: WorkflowView, outcome: ProcessOutcomeView)
    requires
        run.phase == Phase::ReadingStatus,
    ensures
        orderly(run, run.after_status(outcome).state),
        forgiving(run, run.after_status(outcome).state),
{
    reveal(WorkflowView::after_status);
    reveal(WorkflowView::stage_everything);
}

proof fn lemma_commit_step(run: WorkflowView, outcome: ProcessOutcomeView)
    requires
        run.phase == Phase::Committing,
    ensures
        orderly(run, run.after_commit(outcome).state),
        forgiving(run, run.after_commit(outcome).state),
{
    reveal(WorkflowView::after_commit);
}

proof fn lemma_restaged_step(run: WorkflowView, outcome: ProcessOutcomeView)
    requires
        run.phase == Phase::Restaging,
    ensures
        orderly(run, run.after_restaged(outcome).state),
        forgiving(run, run.after_restaged(outcome).state),
{
    reveal(WorkflowView::after_restaged);
}

proof fn lemma_recommit_step(run: WorkflowView, outcome: ProcessOutcomeView)
    requires
        run.phase == Phase::Recommitting,
    ensures
        orderly(run, run.after_recommit(outcome).state),
        forgiving(run, run.after_recommit(outcome).state),
{
    reveal(WorkflowView::after_recommit);
}

proof fn lemma_branch_step(run: WorkflowView, outcome: ProcessOutcomeView)
    requires
        run.phase == Phase::ReadingBranch,
    ensures
        orderly(run, run.after_branch(outcome).state),
        forgiving(run, run.after_branch(outcome).state),
{
    reveal(WorkflowView::after_branch);
}

proof fn lemma_fetch_step(run: WorkflowView, outcome: ProcessOutcomeView)
    requires
        run.phase == Phase::Fetching,
    ensures
        orderly(run, run.after_fetch(outcome).state),
        forgiving(run, run.after_fetch(outcome).state),
{
    reveal(WorkflowView::after_fetch);
}

proof fn lemma_local_head_step(run: WorkflowView, outcome: ProcessOutcomeView)
    requires
        run.phase == Phase::ReadingLocalHead,
    ensures
        orderly(run, run.after_local_head(outcome).state),
        forgiving(run, run.after_local_head(outcome).state),
{
    reveal(WorkflowView::after_local_head);
    lemma_begin_push(run);
}

proof fn lemma_remote_head_step(run: WorkflowView, outcome: ProcessOutcomeView)
    requires
        run.phase == Phase::ReadingRemoteHead,
    ensures
        orderly(run, run.after_remote_head(outcome).state),
        forgiving(run, run.after_remote_head(outcome).state),
{
    reveal(WorkflowView::after_remote_head);
    lemma_begin_push(run);
}

proof fn lemma_pull_step(run: WorkflowView, outcome: ProcessOutcomeView)
    requires
        run.phase == Phase::Pulling,
    ensures
        orderly(run, run.after_pull(outcome).state),
        forgiving(run, run.after_pull(outcome).state),
{
    reveal(WorkflowView::after_pull);
    lemma_begin_push(run);
}

proof fn lemma_stash_step(run: WorkflowView, outcome: ProcessOutcomeView)
    requires
        run.phase == Phase::Stashing,
    ensures
        orderly(run, run.after_stash(outcome).state),
        forgiving(run, run.after_stash(outcome).state),
{
    reveal(WorkflowView::after_stash);
    lemma_begin_push(run);
}

proof fn lemma_second_pull_step(run: WorkflowView, outcome: ProcessOutcomeView)
    requires
        run.phase == Phase::PullingAgain,
    ensures
        orderly(run, run.after_second_pull(outcome).state),
        forgiving(run, run.after_second_pull(outcome).state),
{
    reveal(WorkflowView::after_second_pull);
}

proof fn lemma_pop_step(run: WorkflowView, outcome: ProcessOutcomeView)
    requires
        run.phase == Phase::PoppingStash,
    ensures
        orderly(run, run.after_pop(outcome).state),
        forgiving(run, run.after_pop(outcome).state),
{
    reveal(WorkflowView::after_pop);
    lemma_begin_push(run);
}

proof fn lemma_push_step(run: WorkflowView, outcome: ProcessOutcomeView)
    requires
        run.phase == Phase::Pushing,
    ensures
        orderly(run, run.after_push(outcome).state),
        forgiving(run, run.after_push(outcome).state),
{
    reveal(WorkflowView::after_push);
}

proof fn lemma_log_step(run: WorkflowView, outcome: ProcessOutcomeView)
    requires
        run.phase == Phase::ReadingLog,
    ensures
        orderly(run, run.after_log(outcome).state),
        forgiving(run, run.after_log(outcome).state),
{
    reveal(WorkflowView::after_log);
}

/// What holds of every step that the end of a command makes.
proof fn lemma_after_run(run: WorkflowView, outcome: ProcessOutcomeView)
    ensures
        orderly(run, run.after_run(outcome).state),
        forgiving(run, run.after_run(outcome).state),
{
    match run.phase {
        Phase::StagingAll => lemma_staged_step(run, outcome),
        Phase::StagingSelected => lemma_staged_step(run, outcome),
        Phase::VerifyingRepo => lemma_verify_step(run, outcome),
        Phase::ReadingStatus => lemma_status_step(run, outcome),
        Phase::Committing => lemma_commit_step(run, outcome),
        Phase::Restaging => lemma_restaged_step(run, outcome),
        Phase::Recommitting => lemma_recommit_step(run, outcome),
        Phase::ReadingBranch => lemma_branch_step(run, outcome),
        Phase::Fetching => lemma_fetch_step(run, outcome),
        Phase::ReadingLocalHead => lemma_local_head_step(run, outcome),
        Phase::ReadingRemoteHead => lemma_remote_head_step(run, outcome),
        Phase::Pulling => lemma_pull_step(run, outcome),
        Phase::Stashing => lemma_stash_step(run, outcome),
        Phase::PullingAgain => lemma_second_pull_step(run, outcome),
        Phase::PoppingStash => lemma_pop_step(run, outcome),
        Phase::Pushing => lemma_push_step(run, outcome),
        Phase::ReadingLog => lemma_log_step(run, outcome),
        _ => {},
    }
}

proof fn lemma_confirmed_step(run: WorkflowView, yes: bool)
    ensures
        orderly(run, run.advance(EventView::Confirmed(yes)).state),
{
    reveal(WorkflowView::after_stage_all_answer);
    reveal(WorkflowView::stage_everything);
    reveal(WorkflowView::after_push_answer);
}

proof fn lemma_picked_step(run: WorkflowView, picked: Seq<usize>)
    ensures
        orderly(run, run.advance(EventView::Picked(picked)).state),
{
    reveal(WorkflowView::after_files_picked);
    reveal(WorkflowView::after_emoji_picked);
    if run.phase == Phase::AskingEmoji {
        match picked_emoji(run.emojis, picked) {
            Some(emoji) => {
                lemma_begin_title(WorkflowView { glyph: emoji.emoji, ..run });
            },
            None => {},
        }
    }
}

proof fn lemma_entered_step(run: WorkflowView, text: Seq<char>)
    ensures
        orderly(run, run.advance(EventView::Entered(text)).state),
{
    reveal(WorkflowView::after_title_entered);
    reveal(WorkflowView::after_body_entered);
    lemma_entries_are_checked(text, run.config.commit);
    if run.phase == Phase::AskingTitle {
        match entered_title(text, run.config.commit) {
            Ok(title) => {
                lemma_begin_body(WorkflowView { title, ..run });
            },
            Err(_) => {},
        }
    }
}

/// What holds of every step.
proof fn lemma_advance(run: WorkflowView, event: EventView)
    ensures
        orderly(run, run.advance(event).state),
{
    match event {
        EventView::Ran(outcome) => lemma_after_run(run, outcome),
        EventView::Confirmed(yes) => lemma_confirmed_step(run, yes),
        EventView::Picked(picked) => lemma_picked_step(run, picked),
        EventView::Entered(text) => lemma_entered_step(run, text),
        _ => {},
    }
}

/// Once the commit has been made no step asks for staging or for a commit
/// again: the run stays in the exchange with the remote and the summary until
/// it ends.
pub proof fn lemma_no_commit_after_commit(run: WorkflowView, event: EventView)
    requires
        past_commit(run),
    ensures
        past_commit(run.advance(event).state),
        run.advance(event).state.awaited() != Action::Run(GitOp::Commit),
        run.advance(event).state.awaited() != Action::Run(GitOp::AddSelected),
        run.advance(event).state.awaited() != Action::Run(GitOp::AddAll),
{
    lemma_advance(run, event);
}

/// A run never goes back: every step leaves it where it stands or takes it
/// further in the order of the phases. The second try of the commit is no
/// exception, for it is a phase of its own.
pub proof fn lemma_phases_never_go_back(run: WorkflowView, event: EventView)
    ensures
        run.phase.order() <= run.advance(event).state.phase.order(),
{
    lemma_advance(run, event);
}

/// After the commit no command that fails ends the run in a failure: what
/// goes wrong with the remote or with the summary is told, and the run goes
/// on or ends well.
pub proof fn lemma_remote_failures_are_not_fatal(run: WorkflowView, outcome: ProcessOutcomeView)
    requires
        run.phase.follows_commit(),
        run.outcome is None,
    ensures
        !(run.advance(EventView::Ran(outcome)).state.outcome matches Some(Err(_))),
{
    lemma_after_run(run, outcome);
}

/// A run starts sound.
pub proof fn lemma_initial_is_sound(
    config: crate::config::Config,
    app_config: crate::workflow::model::AppConfigView,
    emojis: Seq<crate::emojis::EmojiView>,
)
    ensures
        WorkflowView::initial(config, app_config, emojis).sound(),
{
}

/// Every step keeps a run sound: a commit is only ever asked for with a
/// title that is not empty and keeps the rules, and with a body that keeps
/// them.
pub proof fn lemma_advance_keeps_sound(run: WorkflowView, event: EventView)
    requires
        run.sound(),
    ensures
        run.advance(event).state.sound(),
        run.advance(event).state.awaited() == Action::Run(GitOp::Commit) ==> ({
            let next = run.advance(event).state;
            &&& next.draft_ready()
            &&& next.title.len() > 0
            &&& title_verdict(next.title, next.config.commit) is Ok
            &&& next.body matches Some(body) ==> body_verdict(body, next.config.commit) is Ok
        }),
{
    lemma_advance(run, event);
    let next = run.advance(event).state;
    lemma_entries_are_checked(next.title, next.config.commit);
}

/// The settings of a run, and the catalogue, never change.
pub proof fn lemma_settings_are_kept(run: WorkflowView, event: EventView)
    ensures
        same_settings(run, run.advance(event).state),
{
    lemma_advance(run, event);
}

} // verus!
