use vstd::prelude::*;

use crate::command::{caller_identity_args, caller_identity_words, CommandLine, CommandSpec};
use crate::text::{decode_trimmed, decoded_line};

verus! {

#[verifier::external_type_specification]
#[verifier::external_body]
pub struct ExIoError(std::io::Error);

#[verifier::external_type_specification]
#[verifier::external_body]
pub struct ExFromUtf8Error(std::string::FromUtf8Error);

#[verifier::external_type_specification]
#[verifier::external_body]
pub struct ExZipError(zip::result::ZipError);

/// Which of the two tool sets a plan belongs to: the tagged, logging tools,
/// or the plainer tester that prints bare lines.
#[derive(Clone, Copy, PartialEq, Eq, Structural, Debug)]
pub enum Edition {
    Tool,
    Tester,
}

/// Why a plan stopped short.
pub enum ToolError {
    /// A process could not be started, or a file could not be read or written.
    Io(std::io::Error),
    /// A command printed something that is not UTF-8.
    Utf8(std::string::FromUtf8Error),
    /// The handler archive could not be built.
    Zip(zip::result::ZipError),
    /// A command ran and exited unsuccessfully; `program` and `args` are how
    /// the failure names it.
    CommandFailed { program: String, args: Vec<String> },
    /// The outcome reported does not answer the action that was asked for.
    OutOfOrder,
}

/// The model of a `ToolError`.
pub enum Fault {
    Io(std::io::Error),
    Utf8,
    Zip,
    CommandFailed(Seq<char>, Seq<Seq<char>>),
    OutOfOrder,
}

impl View for ToolError {
    type V = Fault;

    open spec fn view(&self) -> Fault {
        match self {
            ToolError::Io(e) => Fault::Io(*e),
            ToolError::Utf8(_) => Fault::Utf8,
            ToolError::Zip(_) => Fault::Zip,
            ToolError::CommandFailed { program, args } => Fault::CommandFailed(
                program@,
                args.deep_view(),
            ),
            ToolError::OutOfOrder => Fault::OutOfOrder,
        }
    }
}

/// A log record: level, scope and message.
pub struct LogEntry {
    pub level: String,
    pub scope: String,
    pub message: String,
}

/// Something to tell the operator.
pub enum Notice {
    /// A timestamped log record.
    Log(LogEntry),
    /// A bare line of output.
    Line(String),
}

/// The model of a `Notice`.
pub enum NoticeView {
    Log(Seq<char>, Seq<char>, Seq<char>),
    Line(Seq<char>),
}

impl View for Notice {
    type V = NoticeView;

    open spec fn view(&self) -> NoticeView {
        match self {
            Notice::Log(e) => NoticeView::Log(e.level@, e.scope@, e.message@),
            Notice::Line(l) => NoticeView::Line(l@),
        }
    }
}

/// The model of an `info` log record under `scope`.
pub open spec fn info(scope: Seq<char>, message: Seq<char>) -> NoticeView {
    NoticeView::Log("info"@, scope, message)
}

/// An `info` log record under `scope`.
pub fn info_notice(scope: &str, message: String) -> (n: Notice)
    ensures
        n@ == info(scope@, message@),
{
    Notice::Log(
        LogEntry { level: String::from_str("info"), scope: String::from_str(scope), message },
    )
}

/// A bare line of output.
pub fn line_notice(line: String) -> (n: Notice)
    ensures
        n@ == NoticeView::Line(line@),
{
    Notice::Line(line)
}

/// Work that a plan hands to its driver.
pub enum Action {
    /// Start the command with inherited output and report how it exited.
    Run(CommandSpec),
    /// Start the command, capture its output, and report how it exited and
    /// what it printed.
    Capture(CommandSpec),
    /// Tell the operator.
    Notify(Notice),
    /// Pause for this many seconds.
    Sleep(u64),
    /// Read the handler source and report its bytes.
    ReadHandler,
    /// Write this archive next to the handler and report its path.
    WriteArchive(Vec<u8>),
    /// Run one batch of parallel invocations.
    InvokeBatch,
}

/// The model of an `Action`.
pub enum ActionView {
    Run(CommandLine),
    Capture(CommandLine),
    Notify(NoticeView),
    Sleep(u64),
    ReadHandler,
    WriteArchive(Seq<u8>),
    InvokeBatch,
}

impl View for Action {
    type V = ActionView;

    open spec fn view(&self) -> ActionView {
        match self {
            Action::Run(c) => ActionView::Run(c@),
            Action::Capture(c) => ActionView::Capture(c@),
            Action::Notify(n) => ActionView::Notify(n@),
            Action::Sleep(s) => ActionView::Sleep(*s),
            Action::ReadHandler => ActionView::ReadHandler,
            Action::WriteArchive(b) => ActionView::WriteArchive(b@),
            Action::InvokeBatch => ActionView::InvokeBatch,
        }
    }
}

/// What the driver reports once it has carried out an action.
pub enum Outcome {
    /// The command ran; whether it exited successfully, and what it printed
    /// (empty for `Run`).
    Exited { success: bool, stdout: Vec<u8> },
    /// The command could not be started, or the file operation failed.
    Failed(std::io::Error),
    /// The notice, pause or batch is over.
    Done,
    /// The handler source.
    Read(Vec<u8>),
    /// The archive was written at this path.
    Wrote(String),
}

/// The model of an `Outcome`.
pub enum OutcomeView {
    Exited(bool, Seq<u8>),
    Failed(std::io::Error),
    Done,
    Read(Seq<u8>),
    Wrote(Seq<char>),
}

impl View for Outcome {
    type V = OutcomeView;

    open spec fn view(&self) -> OutcomeView {
        match self {
            Outcome::Exited { success, stdout } => OutcomeView::Exited(*success, stdout@),
            Outcome::Failed(e) => OutcomeView::Failed(*e),
            Outcome::Done => OutcomeView::Done,
            Outcome::Read(b) => OutcomeView::Read(b@),
            Outcome::Wrote(p) => OutcomeView::Wrote(p@),
        }
    }
}

/// The next move of a plan that ends in a value of type `String`.
pub enum TextNext {
    Act(Action),
    Resolved(Result<String, ToolError>),
}

/// The model of a `TextNext`.
pub enum TextStep {
    Act(ActionView),
    Resolved(Result<Seq<char>, Fault>),
}

impl View for TextNext {
    type V = TextStep;

    open spec fn view(&self) -> TextStep {
        match self {
            TextNext::Act(a) => TextStep::Act(a@),
            TextNext::Resolved(Ok(s)) => TextStep::Resolved(Ok(s@)),
            TextNext::Resolved(Err(e)) => TextStep::Resolved(Err(e@)),
        }
    }
}

/// The next move of a plan that ends without a value.
pub enum RunNext {
    Act(Action),
    Finished(Result<(), ToolError>),
}

/// The model of a `RunNext`.
pub enum RunStep {
    Act(ActionView),
    Finished(Result<(), Fault>),
}

impl View for RunNext {
    type V = RunStep;

    open spec fn view(&self) -> RunStep {
        match self {
            RunNext::Act(a) => RunStep::Act(a@),
            RunNext::Finished(Ok(())) => RunStep::Finished(Ok(())),
            RunNext::Finished(Err(e)) => RunStep::Finished(Err(e@)),
        }
    }
}

/// The failure of a command that exited unsuccessfully, named as the AWS CLI
/// with its arguments.
pub open spec fn failed_aws(args: Seq<Seq<char>>) -> Fault {
    Fault::CommandFailed("aws"@, args)
}

/// What running the AWS CLI with `args` comes to, given how it went: success
/// only when it exited successfully.
pub open spec fn run_result(args: Seq<Seq<char>>, o: OutcomeView) -> Result<(), Fault> {
    match o {
        OutcomeView::Exited(true, _) => Ok(()),
        OutcomeView::Exited(false, _) => Err(failed_aws(args)),
        OutcomeView::Failed(e) => Err(Fault::Io(e)),
        _ => Err(Fault::OutOfOrder),
    }
}

/// Judges a run of the AWS CLI with `args` by its outcome: `Ok` when it
/// exited successfully, the failure naming the command when it exited
/// otherwise, the I/O error when it could not be started.
pub fn run(args: Vec<String>, outcome: Outcome) -> (r: Result<(), ToolError>)
    ensures
        match r {
            Ok(()) => run_result(args.deep_view(), outcome@) == Ok::<(), Fault>(()),
            Err(e) => run_result(args.deep_view(), outcome@) == Err::<(), Fault>(e@),
        },
{
    match outcome {
        Outcome::Exited { success: true, stdout: _ } => Ok(()),
        Outcome::Exited { success: false, stdout: _ } => Err(
            ToolError::CommandFailed { program: String::from_str("aws"), args },
        ),
        Outcome::Failed(e) => Err(ToolError::Io(e)),
        _ => Err(ToolError::OutOfOrder),
    }
}

/// The answer that a command printed: the decoded, trimmed output, or a
/// UTF-8 fault.
pub open spec fn answer_of(bytes: Seq<u8>) -> Result<Seq<char>, Fault> {
    match decoded_line(bytes) {
        Some(t) => Ok(t),
        None => Err(Fault::Utf8),
    }
}

/// Decodes and trims what a command printed.
pub fn answer(bytes: Vec<u8>) -> (r: Result<String, ToolError>)
    ensures
        match r {
            Ok(s) => answer_of(bytes@) == Ok::<Seq<char>, Fault>(s@),
            Err(e) => answer_of(bytes@) == Err::<Seq<char>, Fault>(e@),
        },
{
    match decode_trimmed(bytes) {
        Ok(s) => Ok(s),
        Err(e) => Err(ToolError::Utf8(e)),
    }
}

/// The caller's ARN from a run of `aws sts get-caller-identity`: the output
/// decoded and trimmed when the command exited successfully, the failure
/// naming the command when it did not.
pub open spec fn caller_arn_of(success: bool, stdout: Seq<u8>) -> Result<Seq<char>, Fault> {
    if success {
        answer_of(stdout)
    } else {
        Err(failed_aws(caller_identity_args()))
    }
}

/// Finds the caller's ARN in how `aws sts get-caller-identity` exited and
/// what it printed.
pub fn get_caller_arn(success: bool, stdout: Vec<u8>) -> (r: Result<String, ToolError>)
    ensures
        match r {
            Ok(s) => caller_arn_of(success, stdout@) == Ok::<Seq<char>, Fault>(s@),
            Err(e) => caller_arn_of(success, stdout@) == Err::<Seq<char>, Fault>(e@),
        },
{
    if success {
        answer(stdout)
    } else {
        Err(
            ToolError::CommandFailed {
                program: String::from_str("aws"),
                args: caller_identity_words(),
            },
        )
    }
}

} // verus!
