use vstd::prelude::*;

use crate::command::{
    function_delete, function_delete_args, launch, policy_detach, policy_detach_args, role_delete,
    role_delete_args, Launcher, FUNCTION_NAME, ROLE_NAME,
};
use crate::protocol::{
    info, info_notice, line_notice, Action, ActionView, Edition, Fault, Notice, NoticeView,
    Outcome, OutcomeView, RunNext, RunStep, ToolError,
};

verus! {

/// What a `Removal` removes.
#[derive(Clone, Copy, PartialEq, Eq, Structural, Debug)]
pub enum Target {
    /// The Lambda function.
    Function,
    /// The execution role, after detaching its policy.
    Role,
}

/// Where a `Removal` stands.
#[derive(Clone, Copy, PartialEq, Eq, Structural, Debug)]
pub enum RemovalStage {
    /// The policy is being detached from the role.
    Detaching,
    /// The resource is being deleted.
    Deleting,
    /// What became of it is being told.
    Told,
    /// The plan has finished.
    Over,
}

/// Removes one resource; one that is already gone, or whose removal fails,
/// is skipped with a notice rather than an error.
pub struct Removal {
    edition: Edition,
    target: Target,
    stage: RemovalStage,
}

/// The model of a `Removal`.
pub struct RemovalState {
    pub edition: Edition,
    pub target: Target,
    pub stage: RemovalStage,
}

impl View for Removal {
    type V = RemovalState;

    closed spec fn view(&self) -> RemovalState {
        RemovalState { edition: self.edition, target: self.target, stage: self.stage }
    }
}

/// Where `TeardownRun` stands.
pub enum TeardownPhase {
    /// The function is being removed.
    Function(Removal),
    /// The role is being removed.
    Role(Removal),
    /// The end is being told.
    DoneTold,
    /// The run has finished.
    Over,
}

/// The model of a `TeardownPhase`.
pub enum TeardownPhaseView {
    Function(RemovalState),
    Role(RemovalState),
    DoneTold,
    Over,
}

/// Removes the function, then the role; what is already gone, or cannot be
/// removed, is skipped.
pub struct TeardownRun {
    edition: Edition,
    phase: TeardownPhase,
}

/// The model of a `TeardownRun`.
pub struct TeardownState {
    pub edition: Edition,
    pub phase: TeardownPhaseView,
}

impl View for TeardownPhase {
    type V = TeardownPhaseView;

    closed spec fn view(&self) -> TeardownPhaseView {
        match self {
            TeardownPhase::Function(m) => TeardownPhaseView::Function(m@),
            TeardownPhase::Role(m) => TeardownPhaseView::Role(m@),
            TeardownPhase::DoneTold => TeardownPhaseView::DoneTold,
            TeardownPhase::Over => TeardownPhaseView::Over,
        }
    }
}

impl View for TeardownRun {
    type V = TeardownState;

    closed spec fn view(&self) -> TeardownState {
        TeardownState { edition: self.edition, phase: self.phase@ }
    }
}

/// Told when the function was deleted.
pub open spec fn function_deleted_notice(edition: Edition) -> NoticeView {
    match edition {
        Edition::Tool => info("function"@, "関数 '"@ + FUNCTION_NAME@ + "' を削除した。"@),
        Edition::Tester => NoticeView::Line(
            "[teardown] deleted function '"@ + FUNCTION_NAME@ + "'"@,
        ),
    }
}

/// Told when the function was not deleted.
pub open spec fn function_skipped_notice(edition: Edition) -> NoticeView {
    match edition {
        Edition::Tool => info(
            "function"@,
            "関数 '"@ + FUNCTION_NAME@ + "' はスキップ（削除済みまたはエラー）。"@,
        ),
        Edition::Tester => NoticeView::Line("[teardown] skip function (already gone or error)"@),
    }
}

/// Told when the role was deleted.
pub open spec fn role_deleted_notice(edition: Edition) -> NoticeView {
    match edition {
        Edition::Tool => info("role"@, "ロール '"@ + ROLE_NAME@ + "' を削除した。"@),
        Edition::Tester => NoticeView::Line("[teardown] deleted role '"@ + ROLE_NAME@ + "'"@),
    }
}

/// Told when the role was not deleted.
pub open spec fn role_skipped_notice(edition: Edition) -> NoticeView {
    match edition {
        Edition::Tool => info(
            "role"@,
            "ロール '"@ + ROLE_NAME@ + "' はスキップ（削除済みまたはエラー）。"@,
        ),
        Edition::Tester => NoticeView::Line("[teardown] skip role (already gone or error)"@),
    }
}

/// Told at the end.
pub open spec fn teardown_done_notice(edition: Edition) -> NoticeView {
    match edition {
        Edition::Tool => info("teardown"@, "完了。"@),
        Edition::Tester => NoticeView::Line("[teardown] done."@),
    }
}

/// The outcome is that of a command that ran and exited successfully.
pub open spec fn succeeded(o: OutcomeView) -> bool {
    o matches OutcomeView::Exited(true, _)
}

/// The outcome is that of a command, run or not.
pub open spec fn command_outcome(o: OutcomeView) -> bool {
    o is Exited || o is Failed
}

/// Told once the resource was deleted or skipped.
pub open spec fn removal_notice(edition: Edition, target: Target, deleted: bool) -> NoticeView {
    match target {
        Target::Function => if deleted {
            function_deleted_notice(edition)
        } else {
            function_skipped_notice(edition)
        },
        Target::Role => if deleted {
            role_deleted_notice(edition)
        } else {
            role_skipped_notice(edition)
        },
    }
}

/// The command that deletes the target.
pub open spec fn delete_line(target: Target) -> Seq<Seq<char>> {
    match target {
        Target::Function => function_delete_args(),
        Target::Role => role_delete_args(),
    }
}

/// Once its delete command has run, a removal tells exactly what happened:
/// that the resource was deleted when the command exited successfully, that
/// it was skipped when it failed or could not be started. The two notices
/// always differ.
pub proof fn removal_tells_what_happened(st: RemovalState, o: OutcomeView)
    requires
        st.stage == RemovalStage::Deleting,
        o is Exited || o is Failed,
    ensures
        ({
            let deleted = o matches OutcomeView::Exited(true, _);
            let told = match (st.edition, st.target) {
                (Edition::Tool, Target::Function) => NoticeView::Log(
                    "info"@,
                    "function"@,
                    if deleted {
                        "関数 '"@ + FUNCTION_NAME@ + "' を削除した。"@
                    } else {
                        "関数 '"@ + FUNCTION_NAME@ + "' はスキップ（削除済みまたはエラー）。"@
                    },
                ),
                (Edition::Tool, Target::Role) => NoticeView::Log(
                    "info"@,
                    "role"@,
                    if deleted {
                        "ロール '"@ + ROLE_NAME@ + "' を削除した。"@
                    } else {
                        "ロール '"@ + ROLE_NAME@ + "' はスキップ（削除済みまたはエラー）。"@
                    },
                ),
                (Edition::Tester, Target::Function) => NoticeView::Line(
                    if deleted {
                        "[teardown] deleted function '"@ + FUNCTION_NAME@ + "'"@
                    } else {
                        "[teardown] skip function (already gone or error)"@
                    },
                ),
                (Edition::Tester, Target::Role) => NoticeView::Line(
                    if deleted {
                        "[teardown] deleted role '"@ + ROLE_NAME@ + "'"@
                    } else {
                        "[teardown] skip role (already gone or error)"@
                    },
                ),
            };
            removal_step(st, o).1 == RunStep::Act(ActionView::Notify(told))
        }),
        removal_notice(st.edition, st.target, true) != removal_notice(st.edition, st.target, false),
{
    reveal_strlit("関数 '");
    reveal_strlit("ロール '");
    reveal_strlit("[teardown] deleted function '");
    reveal_strlit("[teardown] skip function (already gone or error)");
    reveal_strlit("[teardown] deleted role '");
    reveal_strlit("[teardown] skip role (already gone or error)");
    let f = removal_notice(st.edition, st.target, true);
    let g = removal_notice(st.edition, st.target, false);
    match (st.edition, st.target) {
        (Edition::Tool, Target::Function) => {
            let a = "関数 '"@ + FUNCTION_NAME@ + "' を削除した。"@;
            let b = "関数 '"@ + FUNCTION_NAME@ + "' はスキップ（削除済みまたはエラー）。"@;
            assert(a.len() != b.len() || a[a.len() - 2] != b[b.len() - 2]) by {
                reveal_strlit("' を削除した。");
                reveal_strlit("' はスキップ（削除済みまたはエラー）。");
            }
        },
        (Edition::Tool, Target::Role) => {
            let a = "ロール '"@ + ROLE_NAME@ + "' を削除した。"@;
            let b = "ロール '"@ + ROLE_NAME@ + "' はスキップ（削除済みまたはエラー）。"@;
            assert(a.len() != b.len() || a[a.len() - 2] != b[b.len() - 2]) by {
                reveal_strlit("' を削除した。");
                reveal_strlit("' はスキップ（削除済みまたはエラー）。");
            }
        },
        (Edition::Tester, Target::Function) => {
            let a = "[teardown] deleted function '"@ + FUNCTION_NAME@ + "'"@;
            let b = "[teardown] skip function (already gone or error)"@;
            assert(a[11] != b[11]);
        },
        (Edition::Tester, Target::Role) => {
            let a = "[teardown] deleted role '"@ + ROLE_NAME@ + "'"@;
            let b = "[teardown] skip role (already gone or error)"@;
            assert(a[11] != b[11]);
        },
    }
}

/// One move of a `Removal`.
pub open spec fn removal_step(st: RemovalState, o: OutcomeView) -> (RemovalState, RunStep) {
    let to = |s: RemovalStage| RemovalState { stage: s, ..st };
    let out_of_order = (to(RemovalStage::Over), RunStep::Finished(Err(Fault::OutOfOrder)));
    match st.stage {
        RemovalStage::Detaching => if command_outcome(o) {
            (
                to(RemovalStage::Deleting),
                RunStep::Act(ActionView::Run(launch(Launcher::Shell, delete_line(st.target)))),
            )
        } else {
            out_of_order
        },
        RemovalStage::Deleting => if command_outcome(o) {
            (
                to(RemovalStage::Told),
                RunStep::Act(ActionView::Notify(removal_notice(st.edition, st.target, succeeded(o)))),
            )
        } else {
            out_of_order
        },
        RemovalStage::Told => if o is Done {
            (to(RemovalStage::Over), RunStep::Finished(Ok(())))
        } else {
            out_of_order
        },
        RemovalStage::Over => out_of_order,
    }
}

/// The first move of removing the function: delete it.
pub open spec fn function_removal_start(edition: Edition) -> (RemovalState, ActionView) {
    (
        RemovalState { edition, target: Target::Function, stage: RemovalStage::Deleting },
        ActionView::Run(launch(Launcher::Shell, function_delete_args())),
    )
}

/// The first move of removing the role: detach its policy.
pub open spec fn role_removal_start(edition: Edition) -> (RemovalState, ActionView) {
    (
        RemovalState { edition, target: Target::Role, stage: RemovalStage::Detaching },
        ActionView::Run(launch(Launcher::Shell, policy_detach_args())),
    )
}

/// The run after its current removal moved to `m` with `mr`.
pub open spec fn after_removal(st: TeardownState, m: RemovalState, mr: RunStep) -> (
    TeardownState,
    RunStep,
) {
    match mr {
        RunStep::Act(a) => (
            TeardownState {
                phase: match m.target {
                    Target::Function => TeardownPhaseView::Function(m),
                    Target::Role => TeardownPhaseView::Role(m),
                },
                ..st
            },
            RunStep::Act(a),
        ),
        RunStep::Finished(Err(f)) => (
            TeardownState { phase: TeardownPhaseView::Over, ..st },
            RunStep::Finished(Err(f)),
        ),
        RunStep::Finished(Ok(())) => match m.target {
            Target::Function => {
                let (r, a) = role_removal_start(st.edition);
                (TeardownState { phase: TeardownPhaseView::Role(r), ..st }, RunStep::Act(a))
            },
            Target::Role => (
                TeardownState { phase: TeardownPhaseView::DoneTold, ..st },
                RunStep::Act(ActionView::Notify(teardown_done_notice(st.edition))),
            ),
        },
    }
}

/// One move of `TeardownRun`.
pub open spec fn teardown_step(st: TeardownState, o: OutcomeView) -> (TeardownState, RunStep) {
    let over = TeardownState { phase: TeardownPhaseView::Over, ..st };
    match st.phase {
        TeardownPhaseView::Function(m) => after_removal(st, removal_step(m, o).0, removal_step(m, o).1),
        TeardownPhaseView::Role(m) => after_removal(st, removal_step(m, o).0, removal_step(m, o).1),
        TeardownPhaseView::DoneTold => if o is Done {
            (over, RunStep::Finished(Ok(())))
        } else {
            (over, RunStep::Finished(Err(Fault::OutOfOrder)))
        },
        TeardownPhaseView::Over => (over, RunStep::Finished(Err(Fault::OutOfOrder))),
    }
}

/// The first move of `TeardownRun`: remove the function.
pub open spec fn teardown_start(edition: Edition) -> (TeardownState, ActionView) {
    let (m, a) = function_removal_start(edition);
    (TeardownState { edition, phase: TeardownPhaseView::Function(m) }, a)
}

/// Teardown never stops on what the AWS CLI does: whatever becomes of
/// deleting the function, of detaching the policy and of deleting the role,
/// each is told or passed over and the run ends successfully, the policy
/// always being detached before the role is deleted.
pub proof fn teardown_always_completes(
    edition: Edition,
    function_outcome: OutcomeView,
    detach_outcome: OutcomeView,
    role_outcome: OutcomeView,
)
    requires
        command_outcome(function_outcome),
        command_outcome(detach_outcome),
        command_outcome(role_outcome),
    ensures
        ({
            let l = Launcher::Shell;
            let (s0, a0) = teardown_start(edition);
            let (s1, r1) = teardown_step(s0, function_outcome);
            let (s2, r2) = teardown_step(s1, OutcomeView::Done);
            let (s3, r3) = teardown_step(s2, detach_outcome);
            let (s4, r4) = teardown_step(s3, role_outcome);
            let (s5, r5) = teardown_step(s4, OutcomeView::Done);
            let (s6, r6) = teardown_step(s5, OutcomeView::Done);
            &&& a0 == ActionView::Run(launch(l, function_delete_args()))
            &&& r1 == RunStep::Act(
                ActionView::Notify(
                    removal_notice(edition, Target::Function, succeeded(function_outcome)),
                ),
            )
            &&& r2 == RunStep::Act(ActionView::Run(launch(l, policy_detach_args())))
            &&& r3 == RunStep::Act(ActionView::Run(launch(l, role_delete_args())))
            &&& r4 == RunStep::Act(
                ActionView::Notify(removal_notice(edition, Target::Role, succeeded(role_outcome))),
            )
            &&& r5 == RunStep::Act(ActionView::Notify(teardown_done_notice(edition)))
            &&& r6 == RunStep::Finished(Ok(()))
        }),
{
}

/// Once the teardown finishes it is over, and an over teardown issues
/// nothing more.
pub proof fn teardown_ends_when_finished(st: TeardownState, o: OutcomeView, later: OutcomeView)
    ensures
        teardown_step(st, o).1 is Finished ==> {
            &&& teardown_step(st, o).0.phase is Over
            &&& teardown_step(teardown_step(st, o).0, later).1 == RunStep::Finished(
                Err(Fault::OutOfOrder),
            )
        },
{
}

fn is_success(o: &Outcome) -> (b: bool)
    ensures
        b == succeeded(o@),
{
    match o {
        Outcome::Exited { success, stdout: _ } => *success,
        _ => false,
    }
}

fn is_command_outcome(o: &Outcome) -> (b: bool)
    ensures
        b == command_outcome(o@),
{
    match o {
        Outcome::Exited { .. } => true,
        Outcome::Failed(_) => true,
        _ => false,
    }
}

fn is_done(o: &Outcome) -> (b: bool)
    ensures
        b == (o@ is Done),
{
    match o {
        Outcome::Done => true,
        _ => false,
    }
}

fn concat3(a: &str, b: &str, c: &str) -> (s: String)
    ensures
        s@ == a@ + b@ + c@,
{
    let mut s = String::from_str(a);
    s.append(b);
    s.append(c);
    s
}

/// Deletes the Lambda function, skipping it when it is already gone or cannot
/// be deleted: starts the plan and gives its first action.
pub fn delete_function(edition: Edition) -> (r: (Removal, Action))
    ensures
        (r.0@, r.1@) == function_removal_start(edition),
{
    (
        Removal { edition, target: Target::Function, stage: RemovalStage::Deleting },
        Action::Run(function_delete(Launcher::Shell)),
    )
}

/// Detaches the policy from the role, whatever comes of that, then deletes
/// the role, skipping it when it is already gone or cannot be deleted:
/// starts the plan and gives its first action.
pub fn delete_role(edition: Edition) -> (r: (Removal, Action))
    ensures
        (r.0@, r.1@) == role_removal_start(edition),
{
    (
        Removal { edition, target: Target::Role, stage: RemovalStage::Detaching },
        Action::Run(policy_detach(Launcher::Shell)),
    )
}

impl Removal {
    fn notice_for(&self, deleted: bool) -> (n: Notice)
        ensures
            n@ == removal_notice(self.edition, self.target, deleted),
    {
        let function = self.target == Target::Function;
        match self.edition {
            Edition::Tool => {
                if function {
                    if deleted {
                        info_notice("function", concat3("関数 '", FUNCTION_NAME, "' を削除した。"))
                    } else {
                        info_notice(
                            "function",
                            concat3(
                                "関数 '",
                                FUNCTION_NAME,
                                "' はスキップ（削除済みまたはエラー）。",
                            ),
                        )
                    }
                } else {
                    if deleted {
                        info_notice("role", concat3("ロール '", ROLE_NAME, "' を削除した。"))
                    } else {
                        info_notice(
                            "role",
                            concat3(
                                "ロール '",
                                ROLE_NAME,
                                "' はスキップ（削除済みまたはエラー）。",
                            ),
                        )
                    }
                }
            },
            Edition::Tester => {
                if function {
                    if deleted {
                        line_notice(concat3("[teardown] deleted function '", FUNCTION_NAME, "'"))
                    } else {
                        line_notice(
                            String::from_str("[teardown] skip function (already gone or error)"),
                        )
                    }
                } else {
                    if deleted {
                        line_notice(concat3("[teardown] deleted role '", ROLE_NAME, "'"))
                    } else {
                        line_notice(String::from_str("[teardown] skip role (already gone or error)"))
                    }
                }
            },
        }
    }

    /// Takes the outcome of the last action and makes the next move.
    pub fn step(&mut self, o: Outcome) -> (r: RunNext)
        ensures
            (final(self)@, r@) == removal_step(old(self)@, o@),
    {
        match self.stage {
            RemovalStage::Detaching => {
                if is_command_outcome(&o) {
                    self.stage = RemovalStage::Deleting;
                    let c = match self.target {
                        Target::Function => function_delete(Launcher::Shell),
                        Target::Role => role_delete(Launcher::Shell),
                    };
                    RunNext::Act(Action::Run(c))
                } else {
                    self.stage = RemovalStage::Over;
                    RunNext::Finished(Err(ToolError::OutOfOrder))
                }
            },
            RemovalStage::Deleting => {
                if is_command_outcome(&o) {
                    let n = self.notice_for(is_success(&o));
                    self.stage = RemovalStage::Told;
                    RunNext::Act(Action::Notify(n))
                } else {
                    self.stage = RemovalStage::Over;
                    RunNext::Finished(Err(ToolError::OutOfOrder))
                }
            },
            RemovalStage::Told => {
                self.stage = RemovalStage::Over;
                if is_done(&o) {
                    RunNext::Finished(Ok(()))
                } else {
                    RunNext::Finished(Err(ToolError::OutOfOrder))
                }
            },
            RemovalStage::Over => RunNext::Finished(Err(ToolError::OutOfOrder)),
        }
    }
}

impl TeardownRun {
    /// Starts the teardown.
    pub fn start(edition: Edition) -> (r: (TeardownRun, Action))
        ensures
            (r.0@, r.1@) == teardown_start(edition),
    {
        let (m, a) = delete_function(edition);
        (TeardownRun { edition, phase: TeardownPhase::Function(m) }, a)
    }

    /// Takes the outcome of the last action and makes the next move.
    pub fn step(&mut self, o: Outcome) -> (r: RunNext)
        ensures
            (final(self)@, r@) == teardown_step(old(self)@, o@),
    {
        let mut phase = TeardownPhase::Over;
        std::mem::swap(&mut phase, &mut self.phase);
        match phase {
            TeardownPhase::Function(mut m) | TeardownPhase::Role(mut m) => {
                let target = m.target;
                match m.step(o) {
                    RunNext::Act(a) => {
                        self.phase = match target {
                            Target::Function => TeardownPhase::Function(m),
                            Target::Role => TeardownPhase::Role(m),
                        };
                        RunNext::Act(a)
                    },
                    RunNext::Finished(Err(e)) => RunNext::Finished(Err(e)),
                    RunNext::Finished(Ok(())) => match target {
                        Target::Function => {
                            let (r, a) = delete_role(self.edition);
                            self.phase = TeardownPhase::Role(r);
                            RunNext::Act(a)
                        },
                        Target::Role => {
                            self.phase = TeardownPhase::DoneTold;
                            let n = match self.edition {
                                Edition::Tool => info_notice("teardown", String::from_str("完了。")),
                                Edition::Tester => line_notice(
                                    String::from_str("[teardown] done."),
                                ),
                            };
                            RunNext::Act(Action::Notify(n))
                        },
                    },
                }
            },
            TeardownPhase::DoneTold => {
                if is_done(&o) {
                    RunNext::Finished(Ok(()))
                } else {
                    RunNext::Finished(Err(ToolError::OutOfOrder))
                }
            },
            TeardownPhase::Over => RunNext::Finished(Err(ToolError::OutOfOrder)),
        }
    }
}

} // verus!
