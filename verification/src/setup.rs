use vstd::prelude::*;

use crate::archive::{handler_archive, handler_archive_of, ARCHIVE_LIMIT, ZIP64_BYTES_LIMIT};
use crate::clock::{timestamp_of, timestamp_text, EARLIEST_TIMESTAMP, LATEST_TIMESTAMP};
use crate::command::{
    caller_identity, caller_identity_args, function_create, function_create_args,
    function_create_words, function_lookup, function_lookup_args, function_wait,
    function_wait_args, function_wait_words, launch, policy_attach, policy_attach_args,
    policy_attach_words, role_create, role_create_args, role_create_words, role_lookup,
    role_lookup_args, role_lookup_words, Launcher, FUNCTION_NAME, ROLE_NAME,
};
use crate::protocol::{
    answer, answer_of, caller_arn_of, failed_aws, get_caller_arn, info, info_notice, line_notice, run,
    run_result, Action, ActionView, Edition, Fault, NoticeView, Outcome, OutcomeView, RunNext,
    RunStep, TextNext, TextStep, ToolError,
};

verus! {

/// How an edition starts the CLI while setting up.
pub open spec fn setup_launcher(edition: Edition) -> Launcher {
    match edition {
        Edition::Tool => Launcher::Shell,
        Edition::Tester => Launcher::Direct,
    }
}

fn setup_launcher_exec(edition: Edition) -> (l: Launcher)
    ensures
        l == setup_launcher(edition),
{
    match edition {
        Edition::Tool => Launcher::Shell,
        Edition::Tester => Launcher::Direct,
    }
}

/// Where `RoleSetup` stands.
#[derive(Clone, Copy, PartialEq, Eq, Structural, Debug)]
pub enum RoleStage {
    /// The role is being looked up.
    LookingUp,
    /// The role exists; that is being told before its ARN is returned.
    Reporting,
    /// The role is missing; its creation is being announced.
    Announced,
    /// The role is being created.
    Creating,
    /// The policy is being attached.
    Attaching,
    /// The new role is being looked up for its ARN.
    Rereading,
    /// The plan has resolved.
    Over,
}

/// The plan that makes sure the execution role exists and finds its ARN.
pub struct RoleSetup {
    edition: Edition,
    created_at: String,
    created_by: String,
    stage: RoleStage,
    pending: Vec<u8>,
}

/// The model of a `RoleSetup`.
pub struct RoleState {
    pub edition: Edition,
    pub created_at: Seq<char>,
    pub created_by: Seq<char>,
    pub stage: RoleStage,
    pub pending: Seq<u8>,
}

impl View for RoleSetup {
    type V = RoleState;

    closed spec fn view(&self) -> RoleState {
        RoleState {
            edition: self.edition,
            created_at: self.created_at@,
            created_by: self.created_by@,
            stage: self.stage,
            pending: self.pending@,
        }
    }
}

/// The tags that the tool edition puts on a new role.
pub open spec fn role_tags(st: RoleState) -> Option<(Seq<char>, Seq<char>)> {
    match st.edition {
        Edition::Tool => Some((st.created_at, st.created_by)),
        Edition::Tester => None,
    }
}

/// Told when the role already exists.
pub open spec fn role_reused_notice() -> NoticeView {
    info("role"@, "既存のロールを使用する。"@)
}

/// Told before the role is created.
pub open spec fn role_creating_notice() -> NoticeView {
    info("role"@, "ロール '"@ + ROLE_NAME@ + "' を作成する。"@)
}

/// One move of `RoleSetup`: from its state and the outcome of the last action
/// to its next state and move.
pub open spec fn role_step(st: RoleState, o: OutcomeView) -> (RoleState, TextStep) {
    let l = setup_launcher(st.edition);
    let over = RoleState { stage: RoleStage::Over, ..st };
    match st.stage {
        RoleStage::LookingUp => match o {
            OutcomeView::Failed(e) => (over, TextStep::Resolved(Err(Fault::Io(e)))),
            OutcomeView::Exited(true, out) => match st.edition {
                Edition::Tool => (
                    RoleState { stage: RoleStage::Reporting, pending: out, ..st },
                    TextStep::Act(ActionView::Notify(role_reused_notice())),
                ),
                Edition::Tester => (over, TextStep::Resolved(answer_of(out))),
            },
            OutcomeView::Exited(false, _) => match st.edition {
                Edition::Tool => (
                    RoleState { stage: RoleStage::Announced, ..st },
                    TextStep::Act(ActionView::Notify(role_creating_notice())),
                ),
                Edition::Tester => (
                    RoleState { stage: RoleStage::Creating, ..st },
                    TextStep::Act(ActionView::Run(launch(l, role_create_args(role_tags(st))))),
                ),
            },
            _ => (over, TextStep::Resolved(Err(Fault::OutOfOrder))),
        },
        RoleStage::Reporting => match o {
            OutcomeView::Done => (
                RoleState { stage: RoleStage::Over, pending: Seq::empty(), ..st },
                TextStep::Resolved(answer_of(st.pending)),
            ),
            _ => (over, TextStep::Resolved(Err(Fault::OutOfOrder))),
        },
        RoleStage::Announced => match o {
            OutcomeView::Done => (
                RoleState { stage: RoleStage::Creating, ..st },
                TextStep::Act(ActionView::Run(launch(l, role_create_args(role_tags(st))))),
            ),
            _ => (over, TextStep::Resolved(Err(Fault::OutOfOrder))),
        },
        RoleStage::Creating => match run_result(role_create_args(role_tags(st)), o) {
            Ok(()) => (
                RoleState { stage: RoleStage::Attaching, ..st },
                TextStep::Act(ActionView::Run(launch(l, policy_attach_args()))),
            ),
            Err(f) => (over, TextStep::Resolved(Err(f))),
        },
        RoleStage::Attaching => match run_result(policy_attach_args(), o) {
            Ok(()) => (
                RoleState { stage: RoleStage::Rereading, ..st },
                TextStep::Act(ActionView::Capture(launch(l, role_lookup_args()))),
            ),
            Err(f) => (over, TextStep::Resolved(Err(f))),
        },
        RoleStage::Rereading => match o {
            OutcomeView::Failed(e) => (over, TextStep::Resolved(Err(Fault::Io(e)))),
            OutcomeView::Exited(true, out) => (over, TextStep::Resolved(answer_of(out))),
            OutcomeView::Exited(false, out) => match st.edition {
                Edition::Tool => (over, TextStep::Resolved(Err(failed_aws(role_lookup_args())))),
                Edition::Tester => (over, TextStep::Resolved(answer_of(out))),
            },
            _ => (over, TextStep::Resolved(Err(Fault::OutOfOrder))),
        },
        RoleStage::Over => (over, TextStep::Resolved(Err(Fault::OutOfOrder))),
    }
}

/// The first move of `RoleSetup`: look the role up.
pub open spec fn role_start(edition: Edition, created_at: Seq<char>, created_by: Seq<char>) -> (
    RoleState,
    ActionView,
) {
    (
        RoleState {
            edition,
            created_at,
            created_by,
            stage: RoleStage::LookingUp,
            pending: Seq::empty(),
        },
        ActionView::Capture(launch(setup_launcher(edition), role_lookup_args())),
    )
}

/// Makes sure the execution role exists and finds its ARN: starts the plan
/// and gives its first action. `created_at` and `created_by` tag a role that
/// has to be created (tool edition).
pub fn ensure_role(edition: Edition, created_at: String, created_by: String) -> (r: (
    RoleSetup,
    Action,
))
    ensures
        (r.0@, r.1@) == role_start(edition, created_at@, created_by@),
{
    let first = Action::Capture(role_lookup(setup_launcher_exec(edition)));
    let m = RoleSetup {
        edition,
        created_at,
        created_by,
        stage: RoleStage::LookingUp,
        pending: Vec::new(),
    };
    assert(m@.pending =~= Seq::<u8>::empty());
    (m, first)
}

impl RoleSetup {

    fn tags(&self) -> (t: Option<(&str, &str)>)
        ensures
            match t {
                Some((a, b)) => role_tags(self@) == Some((a@, b@)),
                None => role_tags(self@) is None,
            },
    {
        match self.edition {
            Edition::Tool => Some((self.created_at.as_str(), self.created_by.as_str())),
            Edition::Tester => None,
        }
    }

    /// Takes the outcome of the last action and makes the next move.
    pub fn step(&mut self, o: Outcome) -> (r: TextNext)
        ensures
            (final(self)@, r@) == role_step(old(self)@, o@),
    {
        let l = setup_launcher_exec(self.edition);
        match self.stage {
            RoleStage::LookingUp => match o {
                Outcome::Failed(e) => {
                    self.stage = RoleStage::Over;
                    TextNext::Resolved(Err(ToolError::Io(e)))
                },
                Outcome::Exited { success: true, stdout } => match self.edition {
                    Edition::Tool => {
                        self.stage = RoleStage::Reporting;
                        self.pending = stdout;
                        TextNext::Act(
                            Action::Notify(
                                info_notice("role", String::from_str("既存のロールを使用する。")),
                            ),
                        )
                    },
                    Edition::Tester => {
                        self.stage = RoleStage::Over;
                        TextNext::Resolved(answer(stdout))
                    },
                },
                Outcome::Exited { success: false, stdout: _ } => match self.edition {
                    Edition::Tool => {
                        self.stage = RoleStage::Announced;
                        let mut m = String::from_str("ロール '");
                        m.append(ROLE_NAME);
                        m.append("' を作成する。");
                        TextNext::Act(Action::Notify(info_notice("role", m)))
                    },
                    Edition::Tester => {
                        self.stage = RoleStage::Creating;
                        TextNext::Act(Action::Run(role_create(l, self.tags())))
                    },
                },
                _ => {
                    self.stage = RoleStage::Over;
                    TextNext::Resolved(Err(ToolError::OutOfOrder))
                },
            },
            RoleStage::Reporting => match o {
                Outcome::Done => {
                    self.stage = RoleStage::Over;
                    let mut out: Vec<u8> = Vec::new();
                    std::mem::swap(&mut out, &mut self.pending);
                    assert(self.pending@ =~= Seq::<u8>::empty());
                    TextNext::Resolved(answer(out))
                },
                _ => {
                    self.stage = RoleStage::Over;
                    TextNext::Resolved(Err(ToolError::OutOfOrder))
                },
            },
            RoleStage::Announced => match o {
                Outcome::Done => {
                    self.stage = RoleStage::Creating;
                    TextNext::Act(Action::Run(role_create(l, self.tags())))
                },
                _ => {
                    self.stage = RoleStage::Over;
                    TextNext::Resolved(Err(ToolError::OutOfOrder))
                },
            },
            RoleStage::Creating => match run(role_create_words(self.tags()), o) {
                Ok(()) => {
                    self.stage = RoleStage::Attaching;
                    TextNext::Act(Action::Run(policy_attach(l)))
                },
                Err(e) => {
                    self.stage = RoleStage::Over;
                    TextNext::Resolved(Err(e))
                },
            },
            RoleStage::Attaching => match run(policy_attach_words(), o) {
                Ok(()) => {
                    self.stage = RoleStage::Rereading;
                    TextNext::Act(Action::Capture(role_lookup(l)))
                },
                Err(e) => {
                    self.stage = RoleStage::Over;
                    TextNext::Resolved(Err(e))
                },
            },
            RoleStage::Rereading => match o {
                Outcome::Failed(e) => {
                    self.stage = RoleStage::Over;
                    TextNext::Resolved(Err(ToolError::Io(e)))
                },
                Outcome::Exited { success: true, stdout } => {
                    self.stage = RoleStage::Over;
                    TextNext::Resolved(answer(stdout))
                },
                Outcome::Exited { success: false, stdout } => {
                    self.stage = RoleStage::Over;
                    match self.edition {
                        Edition::Tool => TextNext::Resolved(
                            Err(
                                ToolError::CommandFailed {
                                    program: String::from_str("aws"),
                                    args: role_lookup_words(),
                                },
                            ),
                        ),
                        Edition::Tester => TextNext::Resolved(answer(stdout)),
                    }
                },
                _ => {
                    self.stage = RoleStage::Over;
                    TextNext::Resolved(Err(ToolError::OutOfOrder))
                },
            },
            RoleStage::Over => TextNext::Resolved(Err(ToolError::OutOfOrder)),
        }
    }
}

/// Where `FunctionSetup` stands.
#[derive(Clone, Copy, PartialEq, Eq, Structural, Debug)]
pub enum FunctionStage {
    /// The function is being looked up.
    LookingUp,
    /// The function exists; that is being told.
    Reusing,
    /// The function is missing; its creation is being announced.
    Announced,
    /// The handler source is being read.
    Reading,
    /// The handler archive is being written.
    Writing,
    /// The function is being created.
    Creating,
    /// The wait for the function to become active is being announced.
    Settling,
    /// The CLI is waiting for the function to become active.
    Waiting,
    /// The plan has finished.
    Over,
}

/// The plan that makes sure the Lambda function exists, creating it from the
/// handler archive when it does not, and waits until it is active.
pub struct FunctionSetup {
    edition: Edition,
    role_arn: String,
    created_at: String,
    created_by: String,
    archive_path: String,
    stage: FunctionStage,
}

/// The model of a `FunctionSetup`.
pub struct FunctionState {
    pub edition: Edition,
    pub role_arn: Seq<char>,
    pub created_at: Seq<char>,
    pub created_by: Seq<char>,
    pub archive_path: Seq<char>,
    pub stage: FunctionStage,
}

impl View for FunctionSetup {
    type V = FunctionState;

    closed spec fn view(&self) -> FunctionState {
        FunctionState {
            edition: self.edition,
            role_arn: self.role_arn@,
            created_at: self.created_at@,
            created_by: self.created_by@,
            archive_path: self.archive_path@,
            stage: self.stage,
        }
    }
}

/// The tags that the tool edition puts on a new function.
pub open spec fn function_tags(st: FunctionState) -> Option<(Seq<char>, Seq<char>)> {
    match st.edition {
        Edition::Tool => Some((st.created_at, st.created_by)),
        Edition::Tester => None,
    }
}

/// Told when the function already exists.
pub open spec fn function_reused_notice(edition: Edition) -> NoticeView {
    match edition {
        Edition::Tool => info("function"@, "既存の関数を使用する。"@),
        Edition::Tester => NoticeView::Line("[setup] function already exists, skipping."@),
    }
}

/// Told before the function is created.
pub open spec fn function_creating_notice() -> NoticeView {
    info("function"@, "関数 '"@ + FUNCTION_NAME@ + "' を作成する。"@)
}

/// Told before waiting for the function to become active.
pub open spec fn function_settling_notice() -> NoticeView {
    info("function"@, "関数がアクティブになるまで待機中。"@)
}

/// The command that creates the function from the archive written.
pub open spec fn function_create_line(st: FunctionState) -> Seq<Seq<char>> {
    function_create_args(st.role_arn, st.archive_path, function_tags(st))
}

/// One move of `FunctionSetup`: from its state and the outcome of the last
/// action to its next state and move. On the handler source it writes the
/// handler archive, or stops with the zip crate's error when there is none
/// (see `function_moves` for a source too large to be written at all).
pub open spec fn function_step(st: FunctionState, o: OutcomeView) -> (FunctionState, RunStep) {
    let l = setup_launcher(st.edition);
    let over = FunctionState { stage: FunctionStage::Over, ..st };
    let out_of_order = (over, RunStep::Finished(Err(Fault::OutOfOrder)));
    match st.stage {
        FunctionStage::LookingUp => match o {
            OutcomeView::Failed(e) => (over, RunStep::Finished(Err(Fault::Io(e)))),
            OutcomeView::Exited(true, _) => (
                FunctionState { stage: FunctionStage::Reusing, ..st },
                RunStep::Act(ActionView::Notify(function_reused_notice(st.edition))),
            ),
            OutcomeView::Exited(false, _) => match st.edition {
                Edition::Tool => (
                    FunctionState { stage: FunctionStage::Announced, ..st },
                    RunStep::Act(ActionView::Notify(function_creating_notice())),
                ),
                Edition::Tester => (
                    FunctionState { stage: FunctionStage::Reading, ..st },
                    RunStep::Act(ActionView::ReadHandler),
                ),
            },
            _ => out_of_order,
        },
        FunctionStage::Reusing => match o {
            OutcomeView::Done => (over, RunStep::Finished(Ok(()))),
            _ => out_of_order,
        },
        FunctionStage::Announced => match o {
            OutcomeView::Done => (
                FunctionState { stage: FunctionStage::Reading, ..st },
                RunStep::Act(ActionView::ReadHandler),
            ),
            _ => out_of_order,
        },
        FunctionStage::Reading => match o {
            OutcomeView::Failed(e) => (over, RunStep::Finished(Err(Fault::Io(e)))),
            OutcomeView::Read(source) => match handler_archive_of(source) {
                Some(archive) => (
                    FunctionState { stage: FunctionStage::Writing, ..st },
                    RunStep::Act(ActionView::WriteArchive(archive)),
                ),
                None => (over, RunStep::Finished(Err(Fault::Zip))),
            },
            _ => out_of_order,
        },
        FunctionStage::Writing => match o {
            OutcomeView::Failed(e) => (over, RunStep::Finished(Err(Fault::Io(e)))),
            OutcomeView::Wrote(path) => {
                let next = FunctionState { stage: FunctionStage::Creating, archive_path: path, ..st };
                (next, RunStep::Act(ActionView::Run(launch(l, function_create_line(next)))))
            },
            _ => out_of_order,
        },
        FunctionStage::Creating => match run_result(function_create_line(st), o) {
            Err(f) => (over, RunStep::Finished(Err(f))),
            Ok(()) => match st.edition {
                Edition::Tool => (
                    FunctionState { stage: FunctionStage::Settling, ..st },
                    RunStep::Act(ActionView::Notify(function_settling_notice())),
                ),
                Edition::Tester => (
                    FunctionState { stage: FunctionStage::Waiting, ..st },
                    RunStep::Act(ActionView::Run(launch(l, function_wait_args()))),
                ),
            },
        },
        FunctionStage::Settling => match o {
            OutcomeView::Done => (
                FunctionState { stage: FunctionStage::Waiting, ..st },
                RunStep::Act(ActionView::Run(launch(l, function_wait_args()))),
            ),
            _ => out_of_order,
        },
        FunctionStage::Waiting => match run_result(function_wait_args(), o) {
            Ok(()) => (over, RunStep::Finished(Ok(()))),
            Err(f) => (over, RunStep::Finished(Err(f))),
        },
        FunctionStage::Over => out_of_order,
    }
}

/// The moves that `FunctionSetup` may make: `function_step`, except on a
/// handler source of more than `ZIP64_BYTES_LIMIT` bytes, where writing it
/// into the archive fails and the plan stops with that I/O error.
pub open spec fn function_moves(
    st: FunctionState,
    o: OutcomeView,
    next: FunctionState,
    r: RunStep,
) -> bool {
    match o {
        OutcomeView::Read(source) => if st.stage == FunctionStage::Reading && source.len()
            > ZIP64_BYTES_LIMIT {
            &&& next == FunctionState { stage: FunctionStage::Over, ..st }
            &&& r matches RunStep::Finished(Err(f))
            &&& f is Io
        } else {
            (next, r) == function_step(st, o)
        },
        _ => (next, r) == function_step(st, o),
    }
}

/// The first move of `FunctionSetup`: look the function up.
pub open spec fn function_start(
    edition: Edition,
    role_arn: Seq<char>,
    created_at: Seq<char>,
    created_by: Seq<char>,
) -> (FunctionState, ActionView) {
    (
        FunctionState {
            edition,
            role_arn,
            created_at,
            created_by,
            archive_path: Seq::empty(),
            stage: FunctionStage::LookingUp,
        },
        ActionView::Capture(launch(setup_launcher(edition), function_lookup_args())),
    )
}

/// Makes sure the Lambda function exists, built from the handler archive and
/// run as `role_arn`, and is active: starts the plan and gives its first
/// action. `created_at` and `created_by` tag a function that has to be
/// created (tool edition).
pub fn ensure_function(
    edition: Edition,
    role_arn: String,
    created_at: String,
    created_by: String,
) -> (r: (FunctionSetup, Action))
    ensures
        (r.0@, r.1@) == function_start(edition, role_arn@, created_at@, created_by@),
{
    let first = Action::Capture(function_lookup(setup_launcher_exec(edition)));
    let m = FunctionSetup {
        edition,
        role_arn,
        created_at,
        created_by,
        archive_path: String::new(),
        stage: FunctionStage::LookingUp,
    };
    (m, first)
}

impl FunctionSetup {

    fn tags(&self) -> (t: Option<(&str, &str)>)
        ensures
            match t {
                Some((a, b)) => function_tags(self@) == Some((a@, b@)),
                None => function_tags(self@) is None,
            },
    {
        match self.edition {
            Edition::Tool => Some((self.created_at.as_str(), self.created_by.as_str())),
            Edition::Tester => None,
        }
    }

    fn over(&mut self, e: ToolError) -> (r: RunNext)
        ensures
            final(self)@ == (FunctionState { stage: FunctionStage::Over, ..old(self)@ }),
            r@ == RunStep::Finished(Err(e@)),
    {
        self.stage = FunctionStage::Over;
        RunNext::Finished(Err(e))
    }

    /// Takes the outcome of the last action and makes the next move.
    pub fn step(&mut self, o: Outcome) -> (r: RunNext)
        ensures
            function_moves(old(self)@, o@, final(self)@, r@),
            o@ matches OutcomeView::Read(source) ==> (old(self)@.stage == FunctionStage::Reading
                && source.len() <= ARCHIVE_LIMIT ==> r@ is Act),
    {
        let l = setup_launcher_exec(self.edition);
        match self.stage {
            FunctionStage::LookingUp => match o {
                Outcome::Failed(e) => self.over(ToolError::Io(e)),
                Outcome::Exited { success: true, stdout: _ } => {
                    self.stage = FunctionStage::Reusing;
                    let n = match self.edition {
                        Edition::Tool => info_notice(
                            "function",
                            String::from_str("既存の関数を使用する。"),
                        ),
                        Edition::Tester => line_notice(
                            String::from_str("[setup] function already exists, skipping."),
                        ),
                    };
                    RunNext::Act(Action::Notify(n))
                },
                Outcome::Exited { success: false, stdout: _ } => match self.edition {
                    Edition::Tool => {
                        self.stage = FunctionStage::Announced;
                        let mut m = String::from_str("関数 '");
                        m.append(FUNCTION_NAME);
                        m.append("' を作成する。");
                        RunNext::Act(Action::Notify(info_notice("function", m)))
                    },
                    Edition::Tester => {
                        self.stage = FunctionStage::Reading;
                        RunNext::Act(Action::ReadHandler)
                    },
                },
                _ => self.over(ToolError::OutOfOrder),
            },
            FunctionStage::Reusing => match o {
                Outcome::Done => {
                    self.stage = FunctionStage::Over;
                    RunNext::Finished(Ok(()))
                },
                _ => self.over(ToolError::OutOfOrder),
            },
            FunctionStage::Announced => match o {
                Outcome::Done => {
                    self.stage = FunctionStage::Reading;
                    RunNext::Act(Action::ReadHandler)
                },
                _ => self.over(ToolError::OutOfOrder),
            },
            FunctionStage::Reading => match o {
                Outcome::Failed(e) => self.over(ToolError::Io(e)),
                Outcome::Read(source) => match handler_archive(source.as_slice()) {
                    Ok(archive) => {
                        self.stage = FunctionStage::Writing;
                        RunNext::Act(Action::WriteArchive(archive))
                    },
                    Err(e) => self.over(e),
                },
                _ => self.over(ToolError::OutOfOrder),
            },
            FunctionStage::Writing => match o {
                Outcome::Failed(e) => self.over(ToolError::Io(e)),
                Outcome::Wrote(path) => {
                    self.archive_path = path;
                    self.stage = FunctionStage::Creating;
                    RunNext::Act(
                        Action::Run(
                            function_create(
                                l,
                                self.role_arn.as_str(),
                                self.archive_path.as_str(),
                                self.tags(),
                            ),
                        ),
                    )
                },
                _ => self.over(ToolError::OutOfOrder),
            },
            FunctionStage::Creating => match run(
                function_create_words(
                    self.role_arn.as_str(),
                    self.archive_path.as_str(),
                    self.tags(),
                ),
                o,
            ) {
                Err(e) => self.over(e),
                Ok(()) => match self.edition {
                    Edition::Tool => {
                        self.stage = FunctionStage::Settling;
                        RunNext::Act(
                            Action::Notify(
                                info_notice(
                                    "function",
                                    String::from_str("関数がアクティブになるまで待機中。"),
                                ),
                            ),
                        )
                    },
                    Edition::Tester => {
                        self.stage = FunctionStage::Waiting;
                        RunNext::Act(Action::Run(function_wait(l)))
                    },
                },
            },
            FunctionStage::Settling => match o {
                Outcome::Done => {
                    self.stage = FunctionStage::Waiting;
                    RunNext::Act(Action::Run(function_wait(l)))
                },
                _ => self.over(ToolError::OutOfOrder),
            },
            FunctionStage::Waiting => match run(function_wait_words(), o) {
                Ok(()) => {
                    self.stage = FunctionStage::Over;
                    RunNext::Finished(Ok(()))
                },
                Err(e) => self.over(e),
            },
            FunctionStage::Over => RunNext::Finished(Err(ToolError::OutOfOrder)),
        }
    }
}

/// An existing role is reused: once the lookup succeeds, the plan creates
/// nothing, tells so (tool edition), and resolves to the trimmed ARN printed.
pub proof fn existing_role_is_reused(
    edition: Edition,
    created_at: Seq<char>,
    created_by: Seq<char>,
    out: Seq<u8>,
)
    ensures
        ({
            let (s0, a0) = role_start(edition, created_at, created_by);
            let (s1, r1) = role_step(s0, OutcomeView::Exited(true, out));
            &&& a0 == ActionView::Capture(launch(setup_launcher(edition), role_lookup_args()))
            &&& match edition {
                Edition::Tool => {
                    &&& r1 == TextStep::Act(ActionView::Notify(role_reused_notice()))
                    &&& role_step(s1, OutcomeView::Done).1 == TextStep::Resolved(answer_of(out))
                },
                Edition::Tester => r1 == TextStep::Resolved(answer_of(out)),
            }
        }),
{
}

/// A missing role is created, tagged (tool edition) with its creation time
/// and creator, given the execution policy, and looked up again; the ARN
/// that last lookup prints is the answer when it succeeds, and its failure
/// when it does not.
pub proof fn missing_role_is_created(
    created_at: Seq<char>,
    created_by: Seq<char>,
    last_success: bool,
    out: Seq<u8>,
)
    ensures
        ({
            let l = Launcher::Shell;
            let (s0, _) = role_start(Edition::Tool, created_at, created_by);
            let (s1, r1) = role_step(s0, OutcomeView::Exited(false, Seq::empty()));
            let (s2, r2) = role_step(s1, OutcomeView::Done);
            let (s3, r3) = role_step(s2, OutcomeView::Exited(true, Seq::empty()));
            let (s4, r4) = role_step(s3, OutcomeView::Exited(true, Seq::empty()));
            let (s5, r5) = role_step(s4, OutcomeView::Exited(last_success, out));
            &&& r1 == TextStep::Act(ActionView::Notify(role_creating_notice()))
            &&& r2 == TextStep::Act(
                ActionView::Run(launch(l, role_create_args(Some((created_at, created_by))))),
            )
            &&& r3 == TextStep::Act(ActionView::Run(launch(l, policy_attach_args())))
            &&& r4 == TextStep::Act(ActionView::Capture(launch(l, role_lookup_args())))
            &&& r5 == TextStep::Resolved(
                if last_success {
                    answer_of(out)
                } else {
                    Err(failed_aws(role_lookup_args()))
                },
            )
        }),
{
}

/// In the tester edition the role looked up again after its creation is
/// answered with the trimmed output of that lookup, whatever its exit status.
pub proof fn tester_reread_answers_with_output(st: RoleState, success: bool, out: Seq<u8>)
    requires
        st.stage == RoleStage::Rereading,
        st.edition == Edition::Tester,
    ensures
        role_step(st, OutcomeView::Exited(success, out)).1 == TextStep::Resolved(answer_of(out)),
{
}

/// The role plan answers with an ARN only with what a `get-role` lookup
/// printed, trimmed: the first lookup when it succeeded (told first in the
/// tool edition), or the lookup after the role was created, when it
/// succeeded (tool edition) or whatever its status (tester edition). It
/// never answers with an ARN on the outcome of a create or attach command.
pub proof fn role_answer_comes_from_a_lookup(st: RoleState, o: OutcomeView, arn: Seq<char>)
    requires
        role_step(st, o).1 == TextStep::Resolved(Ok::<Seq<char>, Fault>(arn)),
    ensures
        st.stage == RoleStage::Reporting ==> answer_of(st.pending) == Ok::<Seq<char>, Fault>(arn),
        st.stage == RoleStage::LookingUp ==> st.edition == Edition::Tester && (o matches
            OutcomeView::Exited(true, out) && answer_of(out) == Ok::<Seq<char>, Fault>(arn)),
        st.stage == RoleStage::Rereading ==> (o matches OutcomeView::Exited(success, out)
            && answer_of(out) == Ok::<Seq<char>, Fault>(arn) && (success || st.edition
            == Edition::Tester)),
        st.stage != RoleStage::Reporting && st.stage != RoleStage::LookingUp && st.stage
            != RoleStage::Rereading ==> false,
{
}

/// Once the role plan resolves it is over, and an over plan issues nothing
/// more: every later outcome is out of order.
pub proof fn role_plan_ends_when_resolved(st: RoleState, o: OutcomeView, later: OutcomeView)
    ensures
        role_step(st, o).1 is Resolved ==> {
            &&& role_step(st, o).0.stage == RoleStage::Over
            &&& role_step(role_step(st, o).0, later).1 == TextStep::Resolved(
                Err(Fault::OutOfOrder),
            )
        },
{
}

/// A role creation or policy attachment that exits unsuccessfully stops the
/// plan with the failure of that very command.
pub proof fn failed_role_command_stops(st: RoleState, stdout: Seq<u8>)
    ensures
        st.stage == RoleStage::Creating ==> role_step(st, OutcomeView::Exited(false, stdout)).1
            == TextStep::Resolved(Err(failed_aws(role_create_args(role_tags(st))))),
        st.stage == RoleStage::Attaching ==> role_step(st, OutcomeView::Exited(false, stdout)).1
            == TextStep::Resolved(Err(failed_aws(policy_attach_args()))),
{
}

/// An existing function is reused: once the lookup succeeds, the plan
/// neither builds an archive nor creates anything, and finishes after telling
/// so.
pub proof fn existing_function_is_reused(
    edition: Edition,
    role_arn: Seq<char>,
    created_at: Seq<char>,
    created_by: Seq<char>,
    out: Seq<u8>,
)
    ensures
        ({
            let (s0, a0) = function_start(edition, role_arn, created_at, created_by);
            let (s1, r1) = function_step(s0, OutcomeView::Exited(true, out));
            &&& a0 == ActionView::Capture(launch(setup_launcher(edition), function_lookup_args()))
            &&& r1 == RunStep::Act(ActionView::Notify(function_reused_notice(edition)))
            &&& function_step(s1, OutcomeView::Done).1 == RunStep::Finished(Ok(()))
        }),
{
}

/// A missing function is created from an archive holding exactly the handler
/// source, written where the driver reports, run as the role found, tagged
/// (tool edition) with creation time and creator, and waited for.
pub proof fn missing_function_is_created(
    role_arn: Seq<char>,
    created_at: Seq<char>,
    created_by: Seq<char>,
    source: Seq<u8>,
    archive: Seq<u8>,
    path: Seq<char>,
)
    requires
        handler_archive_of(source) == Some(archive),
    ensures
        ({
            let l = Launcher::Shell;
            let (s0, _) = function_start(Edition::Tool, role_arn, created_at, created_by);
            let (s1, r1) = function_step(s0, OutcomeView::Exited(false, Seq::empty()));
            let (s2, r2) = function_step(s1, OutcomeView::Done);
            let (s3, r3) = function_step(s2, OutcomeView::Read(source));
            let (s4, r4) = function_step(s3, OutcomeView::Wrote(path));
            let (s5, r5) = function_step(s4, OutcomeView::Exited(true, Seq::empty()));
            let (s6, r6) = function_step(s5, OutcomeView::Done);
            let (s7, r7) = function_step(s6, OutcomeView::Exited(true, Seq::empty()));
            &&& r1 == RunStep::Act(ActionView::Notify(function_creating_notice()))
            &&& r2 == RunStep::Act(ActionView::ReadHandler)
            &&& r3 == RunStep::Act(ActionView::WriteArchive(archive))
            &&& r4 == RunStep::Act(
                ActionView::Run(
                    launch(
                        l,
                        function_create_args(role_arn, path, Some((created_at, created_by))),
                    ),
                ),
            )
            &&& r5 == RunStep::Act(ActionView::Notify(function_settling_notice()))
            &&& r6 == RunStep::Act(ActionView::Run(launch(l, function_wait_args())))
            &&& r7 == RunStep::Finished(Ok(()))
        }),
{
}

/// Apart from a handler source too large to be written into the archive, a
/// function plan moves exactly as `function_step` says.
pub proof fn function_moves_are_exact_within_zip_limit(
    st: FunctionState,
    o: OutcomeView,
    next: FunctionState,
    r: RunStep,
)
    requires
        function_moves(st, o, next, r),
        !(o matches OutcomeView::Read(source) && source.len() > ZIP64_BYTES_LIMIT),
    ensures
        (next, r) == function_step(st, o),
{
}

/// A function plan never changes the role it was started with, and the
/// command that creates the function names that role after `--role`.
pub proof fn function_plan_creates_with_its_role(
    st: FunctionState,
    o: OutcomeView,
    next: FunctionState,
    r: RunStep,
)
    requires
        function_moves(st, o, next, r),
    ensures
        next.role_arn == st.role_arn,
        st.stage == FunctionStage::Writing && r is Act ==> {
            &&& o is Wrote
            &&& r == RunStep::Act(
                ActionView::Run(launch(setup_launcher(st.edition), function_create_line(next))),
            )
            &&& function_create_line(next)[6] == "--role"@
            &&& function_create_line(next)[7] == st.role_arn
        },
{
}

/// A function plan finishes well only once the function is known to exist:
/// after a lookup that found it (and the notice that followed), or after a
/// successful wait for the function it created. A create-function command
/// that exits unsuccessfully stops the plan with the failure of that
/// command.
pub proof fn function_plan_succeeds_only_when_function_exists(
    st: FunctionState,
    o: OutcomeView,
    next: FunctionState,
    r: RunStep,
)
    requires
        function_moves(st, o, next, r),
    ensures
        r == RunStep::Finished(Ok(())) ==> {
            ||| st.stage == FunctionStage::Reusing && o == OutcomeView::Done
            ||| st.stage == FunctionStage::Waiting && (o matches OutcomeView::Exited(true, _))
        },
        next.stage == FunctionStage::Reusing ==> st.stage == FunctionStage::LookingUp && (
        o matches OutcomeView::Exited(true, _)),
        st.stage == FunctionStage::Creating && (o matches OutcomeView::Exited(false, _)) ==> r
            == RunStep::Finished(
            Err(Fault::CommandFailed("aws"@, function_create_line(st))),
        ),
{
}

/// Once the function plan finishes it is over, and an over plan issues
/// nothing more.
pub proof fn function_plan_ends_when_finished(
    st: FunctionState,
    o: OutcomeView,
    next: FunctionState,
    r: RunStep,
    later: OutcomeView,
)
    requires
        function_moves(st, o, next, r),
    ensures
        r is Finished ==> {
            &&& next.stage == FunctionStage::Over
            &&& function_step(next, later).1 == RunStep::Finished(Err(Fault::OutOfOrder))
        },
{
}

/// Seconds to wait for IAM to propagate a new role before Lambda may use it.
pub const ROLE_PROPAGATION_SECS: u64 = 10;

/// Where `SetupRun` stands.
pub enum SetupPhase {
    /// The caller's identity is being asked for.
    Caller,
    /// The caller is being told.
    CallerTold,
    /// The execution role is being set up.
    Role(RoleSetup),
    /// The role's ARN is being told.
    RoleTold,
    /// The pause for IAM is being announced.
    PauseTold,
    /// The pause for IAM is under way.
    Pausing,
    /// The function is being set up.
    Function(FunctionSetup),
    /// Readiness is being told.
    ReadyTold,
    /// The run has finished.
    Over,
}

/// The model of a `SetupPhase`.
pub enum SetupPhaseView {
    Caller,
    CallerTold,
    Role(RoleState),
    RoleTold,
    PauseTold,
    Pausing,
    Function(FunctionState),
    ReadyTold,
    Over,
}

/// The whole setup: who runs it, the execution role, the function.
pub struct SetupRun {
    edition: Edition,
    created_at: String,
    caller: String,
    role_arn: String,
    phase: SetupPhase,
}

/// The model of a `SetupRun`.
pub struct SetupState {
    pub edition: Edition,
    pub created_at: Seq<char>,
    pub caller: Seq<char>,
    pub role_arn: Seq<char>,
    pub phase: SetupPhaseView,
}

impl View for SetupPhase {
    type V = SetupPhaseView;

    closed spec fn view(&self) -> SetupPhaseView {
        match self {
            SetupPhase::Caller => SetupPhaseView::Caller,
            SetupPhase::CallerTold => SetupPhaseView::CallerTold,
            SetupPhase::Role(m) => SetupPhaseView::Role(m@),
            SetupPhase::RoleTold => SetupPhaseView::RoleTold,
            SetupPhase::PauseTold => SetupPhaseView::PauseTold,
            SetupPhase::Pausing => SetupPhaseView::Pausing,
            SetupPhase::Function(m) => SetupPhaseView::Function(m@),
            SetupPhase::ReadyTold => SetupPhaseView::ReadyTold,
            SetupPhase::Over => SetupPhaseView::Over,
        }
    }
}

impl View for SetupRun {
    type V = SetupState;

    closed spec fn view(&self) -> SetupState {
        SetupState {
            edition: self.edition,
            created_at: self.created_at@,
            caller: self.caller@,
            role_arn: self.role_arn@,
            phase: self.phase@,
        }
    }
}

/// Told once the caller is known.
pub open spec fn caller_notice(caller: Seq<char>) -> NoticeView {
    info("setup"@, "実行者: "@ + caller)
}

/// Told once the role's ARN is known.
pub open spec fn role_found_notice(edition: Edition, arn: Seq<char>) -> NoticeView {
    match edition {
        Edition::Tool => info("setup"@, "IAM ロール: "@ + arn),
        Edition::Tester => NoticeView::Line("[setup] IAM role: "@ + arn),
    }
}

/// Told before pausing for IAM.
pub open spec fn pause_notice() -> NoticeView {
    info("setup"@, "IAM ロールの反映を待機中 (10s)。"@)
}

/// Told once the function is ready.
pub open spec fn ready_notice(edition: Edition) -> NoticeView {
    match edition {
        Edition::Tool => info("setup"@, "Lambda 関数 '"@ + FUNCTION_NAME@ + "' の準備完了。"@),
        Edition::Tester => NoticeView::Line("[setup] Lambda function '"@ + FUNCTION_NAME@ + "' ready."@),
    }
}

/// The run after its role plan moved to `m` with `mr`.
pub open spec fn after_role(st: SetupState, m: RoleState, mr: TextStep) -> (SetupState, RunStep) {
    match mr {
        TextStep::Act(a) => (SetupState { phase: SetupPhaseView::Role(m), ..st }, RunStep::Act(a)),
        TextStep::Resolved(Err(f)) => (
            SetupState { phase: SetupPhaseView::Over, ..st },
            RunStep::Finished(Err(f)),
        ),
        TextStep::Resolved(Ok(arn)) => (
            SetupState { phase: SetupPhaseView::RoleTold, role_arn: arn, ..st },
            RunStep::Act(ActionView::Notify(role_found_notice(st.edition, arn))),
        ),
    }
}

/// The run after its function plan moved to `m` with `mr`.
pub open spec fn after_function(st: SetupState, m: FunctionState, mr: RunStep) -> (
    SetupState,
    RunStep,
) {
    match mr {
        RunStep::Act(a) => (
            SetupState { phase: SetupPhaseView::Function(m), ..st },
            RunStep::Act(a),
        ),
        RunStep::Finished(Err(f)) => (
            SetupState { phase: SetupPhaseView::Over, ..st },
            RunStep::Finished(Err(f)),
        ),
        RunStep::Finished(Ok(())) => (
            SetupState { phase: SetupPhaseView::ReadyTold, ..st },
            RunStep::Act(ActionView::Notify(ready_notice(st.edition))),
        ),
    }
}

/// The moves that `SetupRun` may make from `st` on the outcome `o`.
pub open spec fn setup_moves(st: SetupState, o: OutcomeView, next: SetupState, r: RunStep) -> bool {
    let over = SetupState { phase: SetupPhaseView::Over, ..st };
    let out_of_order = (over, RunStep::Finished(Err(Fault::OutOfOrder)));
    match st.phase {
        SetupPhaseView::Caller => (next, r) == match o {
            OutcomeView::Failed(e) => (over, RunStep::Finished(Err(Fault::Io(e)))),
            OutcomeView::Exited(success, out) => match caller_arn_of(success, out) {
                Ok(caller) => (
                    SetupState { phase: SetupPhaseView::CallerTold, caller, ..st },
                    RunStep::Act(ActionView::Notify(caller_notice(caller))),
                ),
                Err(f) => (over, RunStep::Finished(Err(f))),
            },
            _ => out_of_order,
        },
        SetupPhaseView::CallerTold => (next, r) == match o {
            OutcomeView::Done => {
                let (m, a) = role_start(st.edition, st.created_at, st.caller);
                (SetupState { phase: SetupPhaseView::Role(m), ..st }, RunStep::Act(a))
            },
            _ => out_of_order,
        },
        SetupPhaseView::Role(m) => (next, r) == after_role(st, role_step(m, o).0, role_step(m, o).1),
        SetupPhaseView::RoleTold => (next, r) == match o {
            OutcomeView::Done => match st.edition {
                Edition::Tool => (
                    SetupState { phase: SetupPhaseView::PauseTold, ..st },
                    RunStep::Act(ActionView::Notify(pause_notice())),
                ),
                Edition::Tester => (
                    SetupState { phase: SetupPhaseView::Pausing, ..st },
                    RunStep::Act(ActionView::Sleep(ROLE_PROPAGATION_SECS)),
                ),
            },
            _ => out_of_order,
        },
        SetupPhaseView::PauseTold => (next, r) == match o {
            OutcomeView::Done => (
                SetupState { phase: SetupPhaseView::Pausing, ..st },
                RunStep::Act(ActionView::Sleep(ROLE_PROPAGATION_SECS)),
            ),
            _ => out_of_order,
        },
        SetupPhaseView::Pausing => (next, r) == match o {
            OutcomeView::Done => {
                let (m, a) = function_start(st.edition, st.role_arn, st.created_at, st.caller);
                (SetupState { phase: SetupPhaseView::Function(m), ..st }, RunStep::Act(a))
            },
            _ => out_of_order,
        },
        SetupPhaseView::Function(m) => exists|m2: FunctionState, mr: RunStep|
            #[trigger] function_moves(m, o, m2, mr) && (next, r) == after_function(st, m2, mr),
        SetupPhaseView::ReadyTold => (next, r) == match o {
            OutcomeView::Done => (over, RunStep::Finished(Ok(()))),
            _ => out_of_order,
        },
        SetupPhaseView::Over => (next, r) == out_of_order,
    }
}

/// The first move of `SetupRun`. The tool edition stamps what it creates with
/// the instant `now` and first asks who the caller is; the tester edition
/// goes straight to the role.
pub open spec fn setup_start(edition: Edition, now: i64) -> (SetupState, ActionView) {
    match edition {
        Edition::Tool => (
            SetupState {
                edition,
                created_at: timestamp_of(now),
                caller: Seq::empty(),
                role_arn: Seq::empty(),
                phase: SetupPhaseView::Caller,
            },
            ActionView::Capture(launch(Launcher::Shell, caller_identity_args())),
        ),
        Edition::Tester => {
            let (m, a) = role_start(edition, Seq::empty(), Seq::empty());
            (
                SetupState {
                    edition,
                    created_at: Seq::empty(),
                    caller: Seq::empty(),
                    role_arn: Seq::empty(),
                    phase: SetupPhaseView::Role(m),
                },
                a,
            )
        },
    }
}

impl SetupRun {
    /// Starts the setup at the instant `now` (Unix time; only the tool edition
    /// reads it).
    pub fn start(edition: Edition, now: i64) -> (r: (SetupRun, Action))
        requires
            edition == Edition::Tool ==> EARLIEST_TIMESTAMP <= now <= LATEST_TIMESTAMP,
        ensures
            (r.0@, r.1@) == setup_start(edition, now),
    {
        match edition {
            Edition::Tool => {
                let m = SetupRun {
                    edition,
                    created_at: timestamp_text(now),
                    caller: String::new(),
                    role_arn: String::new(),
                    phase: SetupPhase::Caller,
                };
                (m, Action::Capture(caller_identity(Launcher::Shell)))
            },
            Edition::Tester => {
                let (role, first) = ensure_role(edition, String::new(), String::new());
                let m = SetupRun {
                    edition,
                    created_at: String::new(),
                    caller: String::new(),
                    role_arn: String::new(),
                    phase: SetupPhase::Role(role),
                };
                (m, first)
            },
        }
    }

    /// Takes the outcome of the last action and makes the next move.
    pub fn step(&mut self, o: Outcome) -> (r: RunNext)
        ensures
            setup_moves(old(self)@, o@, final(self)@, r@),
    {
        let mut phase = SetupPhase::Over;
        std::mem::swap(&mut phase, &mut self.phase);
        match phase {
            SetupPhase::Caller => match o {
                Outcome::Failed(e) => RunNext::Finished(Err(ToolError::Io(e))),
                Outcome::Exited { success, stdout } => match get_caller_arn(success, stdout) {
                    Ok(caller) => {
                        let mut m = String::from_str("実行者: ");
                        m.append(caller.as_str());
                        self.caller = caller;
                        self.phase = SetupPhase::CallerTold;
                        RunNext::Act(Action::Notify(info_notice("setup", m)))
                    },
                    Err(e) => RunNext::Finished(Err(e)),
                },
                _ => RunNext::Finished(Err(ToolError::OutOfOrder)),
            },
            SetupPhase::CallerTold => match o {
                Outcome::Done => {
                    let (m, a) = ensure_role(
                        self.edition,
                        self.created_at.clone(),
                        self.caller.clone(),
                    );
                    self.phase = SetupPhase::Role(m);
                    RunNext::Act(a)
                },
                _ => RunNext::Finished(Err(ToolError::OutOfOrder)),
            },
            SetupPhase::Role(mut m) => match m.step(o) {
                TextNext::Act(a) => {
                    self.phase = SetupPhase::Role(m);
                    RunNext::Act(a)
                },
                TextNext::Resolved(Err(e)) => RunNext::Finished(Err(e)),
                TextNext::Resolved(Ok(arn)) => {
                    let n = match self.edition {
                        Edition::Tool => {
                            let mut t = String::from_str("IAM ロール: ");
                            t.append(arn.as_str());
                            info_notice("setup", t)
                        },
                        Edition::Tester => {
                            let mut t = String::from_str("[setup] IAM role: ");
                            t.append(arn.as_str());
                            line_notice(t)
                        },
                    };
                    self.role_arn = arn;
                    self.phase = SetupPhase::RoleTold;
                    RunNext::Act(Action::Notify(n))
                },
            },
            SetupPhase::RoleTold => match o {
                Outcome::Done => match self.edition {
                    Edition::Tool => {
                        self.phase = SetupPhase::PauseTold;
                        RunNext::Act(
                            Action::Notify(
                                info_notice(
                                    "setup",
                                    String::from_str("IAM ロールの反映を待機中 (10s)。"),
                                ),
                            ),
                        )
                    },
                    Edition::Tester => {
                        self.phase = SetupPhase::Pausing;
                        RunNext::Act(Action::Sleep(ROLE_PROPAGATION_SECS))
                    },
                },
                _ => RunNext::Finished(Err(ToolError::OutOfOrder)),
            },
            SetupPhase::PauseTold => match o {
                Outcome::Done => {
                    self.phase = SetupPhase::Pausing;
                    RunNext::Act(Action::Sleep(ROLE_PROPAGATION_SECS))
                },
                _ => RunNext::Finished(Err(ToolError::OutOfOrder)),
            },
            SetupPhase::Pausing => match o {
                Outcome::Done => {
                    let (m, a) = ensure_function(
                        self.edition,
                        self.role_arn.clone(),
                        self.created_at.clone(),
                        self.caller.clone(),
                    );
                    self.phase = SetupPhase::Function(m);
                    RunNext::Act(a)
                },
                _ => RunNext::Finished(Err(ToolError::OutOfOrder)),
            },
            SetupPhase::Function(mut m) => {
                let ghost before = m@;
                let r = m.step(o);
                assert(function_moves(before, o@, m@, r@));
                match r {
                    RunNext::Act(a) => {
                        self.phase = SetupPhase::Function(m);
                        RunNext::Act(a)
                    },
                    RunNext::Finished(Err(e)) => RunNext::Finished(Err(e)),
                    RunNext::Finished(Ok(())) => {
                        let n = match self.edition {
                            Edition::Tool => {
                                let mut t = String::from_str("Lambda 関数 '");
                                t.append(FUNCTION_NAME);
                                t.append("' の準備完了。");
                                info_notice("setup", t)
                            },
                            Edition::Tester => {
                                let mut t = String::from_str("[setup] Lambda function '");
                                t.append(FUNCTION_NAME);
                                t.append("' ready.");
                                line_notice(t)
                            },
                        };
                        self.phase = SetupPhase::ReadyTold;
                        RunNext::Act(Action::Notify(n))
                    },
                }
            },
            SetupPhase::ReadyTold => match o {
                Outcome::Done => RunNext::Finished(Ok(())),
                _ => RunNext::Finished(Err(ToolError::OutOfOrder)),
            },
            SetupPhase::Over => RunNext::Finished(Err(ToolError::OutOfOrder)),
        }
    }
}

/// Once the setup finishes it is over, and an over setup issues nothing
/// more.
pub proof fn setup_ends_when_finished(
    st: SetupState,
    o: OutcomeView,
    next: SetupState,
    r: RunStep,
    later: OutcomeView,
    after: SetupState,
    r2: RunStep,
)
    requires
        setup_moves(st, o, next, r),
        setup_moves(next, later, after, r2),
    ensures
        r is Finished ==> next.phase is Over && r2 == RunStep::Finished(Err(Fault::OutOfOrder)),
{
    if r is Finished {
        match st.phase {
            SetupPhaseView::Function(m) => {
                let (m2, mr) = choose|m2: FunctionState, mr: RunStep|
                    #[trigger] function_moves(m, o, m2, mr) && (next, r) == after_function(st, m2, mr);
            },
            _ => {},
        }
    }
}

/// The setup creates the function with the role it found: when the role
/// plan resolves to an ARN, the run keeps that ARN, no later move changes
/// it, and every function plan the run holds carries it. (The caller's ARN
/// only tags what is created.)
pub proof fn setup_creates_function_with_found_role(
    st: SetupState,
    o: OutcomeView,
    next: SetupState,
    r: RunStep,
)
    requires
        setup_moves(st, o, next, r),
        st.phase matches SetupPhaseView::Function(m) ==> m.role_arn == st.role_arn,
    ensures
        next.phase matches SetupPhaseView::Function(m2) ==> m2.role_arn == next.role_arn,
        match st.phase {
            SetupPhaseView::Role(m) => match role_step(m, o).1 {
                TextStep::Resolved(Ok(arn)) => next.role_arn == arn,
                _ => next.role_arn == st.role_arn,
            },
            _ => next.role_arn == st.role_arn,
        },
{
    match st.phase {
        SetupPhaseView::Function(m) => {
            let (m2, mr) = choose|m2: FunctionState, mr: RunStep|
                #[trigger] function_moves(m, o, m2, mr) && (next, r) == after_function(st, m2, mr);
            function_plan_creates_with_its_role(m, o, m2, mr);
        },
        _ => {},
    }
}

/// A tool setup whose caller-identity command exits unsuccessfully stops at
/// once with the failure of that command, whatever it printed.
pub proof fn failed_caller_lookup_stops(now: i64, out: Seq<u8>)
    ensures
        ({
            let (s0, _) = setup_start(Edition::Tool, now);
            setup_moves(
                s0,
                OutcomeView::Exited(false, out),
                SetupState { phase: SetupPhaseView::Over, ..s0 },
                RunStep::Finished(Err(failed_aws(caller_identity_args()))),
            )
        }),
{
}

/// The tool's setup stamps what it creates with the time it started and
/// with the caller it found: the role plan it starts carries both.
pub proof fn setup_tags_with_start_time_and_caller(now: i64, out: Seq<u8>, caller: Seq<char>)
    requires
        answer_of(out) == Ok::<Seq<char>, Fault>(caller),
    ensures
        ({
            let (s0, a0) = setup_start(Edition::Tool, now);
            &&& a0 == ActionView::Capture(launch(Launcher::Shell, caller_identity_args()))
            &&& setup_moves(
                s0,
                OutcomeView::Exited(true, out),
                SetupState { phase: SetupPhaseView::CallerTold, caller, ..s0 },
                RunStep::Act(ActionView::Notify(caller_notice(caller))),
            )
            &&& {
                let s1 = SetupState { phase: SetupPhaseView::CallerTold, caller, ..s0 };
                let (m, a) = role_start(Edition::Tool, timestamp_of(now), caller);
                setup_moves(
                    s1,
                    OutcomeView::Done,
                    SetupState { phase: SetupPhaseView::Role(m), ..s1 },
                    RunStep::Act(a),
                )
            }
        }),
{
}

} // verus!
