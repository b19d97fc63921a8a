use vstd::prelude::*;

use crate::command::{
    concurrency_limit, concurrency_limit_args, concurrency_limit_words, concurrency_release,
    concurrency_release_args, concurrency_release_words, launch, Launcher,
};
use crate::protocol::{
    info, info_notice, line_notice, run, run_result, Action, ActionView, Edition, Fault,
    NoticeView, Outcome, OutcomeView, RunNext, RunStep, ToolError,
};

verus! {

/// Where `TrialRun` stands.
#[derive(Clone, Copy, PartialEq, Eq, Structural, Debug)]
pub enum TrialStage {
    /// The unlimited phase is being announced.
    FirstTold,
    /// The unlimited batch is under way.
    FirstBatch,
    /// The limited phase is being announced.
    SecondTold,
    /// Concurrency is being limited to one.
    Limiting,
    /// The limited batch is under way.
    SecondBatch,
    /// The limit is being lifted.
    Releasing,
    /// The lifting is being told.
    ReleasedTold,
    /// The run has finished.
    Over,
}

/// Invokes the function in parallel twice: without a concurrency limit, then
/// with its reserved concurrency set to one, and lifts the limit afterwards.
pub struct TrialRun {
    edition: Edition,
    stage: TrialStage,
}

/// The model of a `TrialRun`.
pub struct TrialState {
    pub edition: Edition,
    pub stage: TrialStage,
}

impl View for TrialRun {
    type V = TrialState;

    closed spec fn view(&self) -> TrialState {
        TrialState { edition: self.edition, stage: self.stage }
    }
}

/// Told before the unlimited batch.
pub open spec fn first_phase_notice(edition: Edition) -> NoticeView {
    match edition {
        Edition::Tool => info("test"@, "フェーズ1: 同時実行数制限なし。"@),
        Edition::Tester => NoticeView::Line("=== 並列呼び出し可能（制限なし）==="@),
    }
}

/// Told before the limited batch.
pub open spec fn second_phase_notice(edition: Edition) -> NoticeView {
    match edition {
        Edition::Tool => info("test"@, "フェーズ2: 同時実行数 = 1。"@),
        Edition::Tester => NoticeView::Line("\n=== 並列呼び出し不可（同時実行数 = 1）==="@),
    }
}

/// Told once the limit is lifted.
pub open spec fn released_notice(edition: Edition) -> NoticeView {
    match edition {
        Edition::Tool => info("test"@, "同時実行数制限を解除した。"@),
        Edition::Tester => NoticeView::Line("\n[test] reserved concurrency 解除済み"@),
    }
}

/// One move of `TrialRun`.
pub open spec fn trial_step(st: TrialState, o: OutcomeView) -> (TrialState, RunStep) {
    let l = Launcher::ShellNoRetry;
    let to = |s: TrialStage| TrialState { stage: s, ..st };
    let over = to(TrialStage::Over);
    let out_of_order = (over, RunStep::Finished(Err(Fault::OutOfOrder)));
    match st.stage {
        TrialStage::FirstTold => match o {
            OutcomeView::Done => (to(TrialStage::FirstBatch), RunStep::Act(ActionView::InvokeBatch)),
            _ => out_of_order,
        },
        TrialStage::FirstBatch => match o {
            OutcomeView::Done => (
                to(TrialStage::SecondTold),
                RunStep::Act(ActionView::Notify(second_phase_notice(st.edition))),
            ),
            _ => out_of_order,
        },
        TrialStage::SecondTold => match o {
            OutcomeView::Done => (
                to(TrialStage::Limiting),
                RunStep::Act(ActionView::Run(launch(l, concurrency_limit_args()))),
            ),
            _ => out_of_order,
        },
        TrialStage::Limiting => match run_result(concurrency_limit_args(), o) {
            Ok(()) => (to(TrialStage::SecondBatch), RunStep::Act(ActionView::InvokeBatch)),
            Err(f) => (over, RunStep::Finished(Err(f))),
        },
        TrialStage::SecondBatch => match o {
            OutcomeView::Done => (
                to(TrialStage::Releasing),
                RunStep::Act(ActionView::Run(launch(l, concurrency_release_args()))),
            ),
            _ => out_of_order,
        },
        TrialStage::Releasing => match run_result(concurrency_release_args(), o) {
            Ok(()) => (
                to(TrialStage::ReleasedTold),
                RunStep::Act(ActionView::Notify(released_notice(st.edition))),
            ),
            Err(f) => (over, RunStep::Finished(Err(f))),
        },
        TrialStage::ReleasedTold => match o {
            OutcomeView::Done => (over, RunStep::Finished(Ok(()))),
            _ => out_of_order,
        },
        TrialStage::Over => out_of_order,
    }
}

/// The first move of `TrialRun`: announce the unlimited phase.
pub open spec fn trial_start(edition: Edition) -> (TrialState, ActionView) {
    (
        TrialState { edition, stage: TrialStage::FirstTold },
        ActionView::Notify(first_phase_notice(edition)),
    )
}

/// The limited batch runs only once concurrency was limited: an
/// unsuccessful limiting stops the trial before it; likewise the trial ends
/// successfully only once the limit is lifted.
pub proof fn limited_batch_needs_the_limit(st: TrialState, o: OutcomeView)
    ensures
        st.stage == TrialStage::Limiting ==> (trial_step(st, o).1 == RunStep::Act(
            ActionView::InvokeBatch,
        ) <==> o matches OutcomeView::Exited(true, _)),
        st.stage == TrialStage::Limiting && (o matches OutcomeView::Exited(false, _)) ==> trial_step(
            st,
            o,
        ).1 == RunStep::Finished(Err(Fault::CommandFailed("aws"@, concurrency_limit_args()))),
        st.stage == TrialStage::Releasing && !(o matches OutcomeView::Exited(true, _)) ==> trial_step(
            st,
            o,
        ).1 is Finished && trial_step(st, o).1 != RunStep::Finished(Ok(())),
{
}

/// The whole trial when every command succeeds: announce, batch, announce,
/// limit, batch, lift, tell, done.
pub proof fn trial_course(edition: Edition)
    ensures
        ({
            let l = Launcher::ShellNoRetry;
            let ok = OutcomeView::Exited(true, Seq::empty());
            let (s0, a0) = trial_start(edition);
            let (s1, r1) = trial_step(s0, OutcomeView::Done);
            let (s2, r2) = trial_step(s1, OutcomeView::Done);
            let (s3, r3) = trial_step(s2, OutcomeView::Done);
            let (s4, r4) = trial_step(s3, ok);
            let (s5, r5) = trial_step(s4, OutcomeView::Done);
            let (s6, r6) = trial_step(s5, ok);
            let (s7, r7) = trial_step(s6, OutcomeView::Done);
            &&& a0 == ActionView::Notify(first_phase_notice(edition))
            &&& r1 == RunStep::Act(ActionView::InvokeBatch)
            &&& r2 == RunStep::Act(ActionView::Notify(second_phase_notice(edition)))
            &&& r3 == RunStep::Act(ActionView::Run(launch(l, concurrency_limit_args())))
            &&& r4 == RunStep::Act(ActionView::InvokeBatch)
            &&& r5 == RunStep::Act(ActionView::Run(launch(l, concurrency_release_args())))
            &&& r6 == RunStep::Act(ActionView::Notify(released_notice(edition)))
            &&& r7 == RunStep::Finished(Ok(()))
        }),
{
}

/// Once the trial finishes it is over, and an over trial issues nothing
/// more.
pub proof fn trial_ends_when_finished(st: TrialState, o: OutcomeView, later: OutcomeView)
    ensures
        trial_step(st, o).1 is Finished ==> {
            &&& trial_step(st, o).0.stage == TrialStage::Over
            &&& trial_step(trial_step(st, o).0, later).1 == RunStep::Finished(
                Err(Fault::OutOfOrder),
            )
        },
{
}

impl TrialRun {
    /// Starts the trial.
    pub fn start(edition: Edition) -> (r: (TrialRun, Action))
        ensures
            (r.0@, r.1@) == trial_start(edition),
    {
        let n = match edition {
            Edition::Tool => info_notice("test", String::from_str("フェーズ1: 同時実行数制限なし。")),
            Edition::Tester => line_notice(String::from_str("=== 並列呼び出し可能（制限なし）===")),
        };
        (TrialRun { edition, stage: TrialStage::FirstTold }, Action::Notify(n))
    }

    fn finish(&mut self, r: Result<(), ToolError>) -> (n: RunNext)
        ensures
            final(self)@ == (TrialState { stage: TrialStage::Over, ..old(self)@ }),
            n@ == RunStep::Finished(
                match r {
                    Ok(()) => Ok(()),
                    Err(e) => Err(e@),
                },
            ),
    {
        self.stage = TrialStage::Over;
        RunNext::Finished(r)
    }

    /// Takes the outcome of the last action and makes the next move.
    pub fn step(&mut self, o: Outcome) -> (r: RunNext)
        ensures
            (final(self)@, r@) == trial_step(old(self)@, o@),
    {
        let l = Launcher::ShellNoRetry;
        match self.stage {
            TrialStage::FirstTold => match o {
                Outcome::Done => {
                    self.stage = TrialStage::FirstBatch;
                    RunNext::Act(Action::InvokeBatch)
                },
                _ => self.finish(Err(ToolError::OutOfOrder)),
            },
            TrialStage::FirstBatch => match o {
                Outcome::Done => {
                    self.stage = TrialStage::SecondTold;
                    let n = match self.edition {
                        Edition::Tool => info_notice(
                            "test",
                            String::from_str("フェーズ2: 同時実行数 = 1。"),
                        ),
                        Edition::Tester => line_notice(
                            String::from_str("\n=== 並列呼び出し不可（同時実行数 = 1）==="),
                        ),
                    };
                    RunNext::Act(Action::Notify(n))
                },
                _ => self.finish(Err(ToolError::OutOfOrder)),
            },
            TrialStage::SecondTold => match o {
                Outcome::Done => {
                    self.stage = TrialStage::Limiting;
                    RunNext::Act(Action::Run(concurrency_limit(l)))
                },
                _ => self.finish(Err(ToolError::OutOfOrder)),
            },
            TrialStage::Limiting => match run(concurrency_limit_words(), o) {
                Ok(()) => {
                    self.stage = TrialStage::SecondBatch;
                    RunNext::Act(Action::InvokeBatch)
                },
                Err(e) => self.finish(Err(e)),
            },
            TrialStage::SecondBatch => match o {
                Outcome::Done => {
                    self.stage = TrialStage::Releasing;
                    RunNext::Act(Action::Run(concurrency_release(l)))
                },
                _ => self.finish(Err(ToolError::OutOfOrder)),
            },
            TrialStage::Releasing => match run(concurrency_release_words(), o) {
                Err(e) => self.finish(Err(e)),
                Ok(()) => {
                    self.stage = TrialStage::ReleasedTold;
                    let n = match self.edition {
                        Edition::Tool => info_notice(
                            "test",
                            String::from_str("同時実行数制限を解除した。"),
                        ),
                        Edition::Tester => line_notice(
                            String::from_str("\n[test] reserved concurrency 解除済み"),
                        ),
                    };
                    RunNext::Act(Action::Notify(n))
                },
            },
            TrialStage::ReleasedTold => match o {
                Outcome::Done => self.finish(Ok(())),
                _ => self.finish(Err(ToolError::OutOfOrder)),
            },
            TrialStage::Over => RunNext::Finished(Err(ToolError::OutOfOrder)),
        }
    }
}

} // verus!
