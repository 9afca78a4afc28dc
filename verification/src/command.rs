//! External commands as values: what is to be run, what running it gave, and
//! how that outcome is read.

use vstd::prelude::*;
use vstd::utf8::{decode_utf8, valid_utf8};
use crate::text::{trim, trimmed};

verus! {

/// What can go wrong in a tick.
#[derive(Debug, PartialEq, Eq)]
pub enum MonitoringError {
    /// An external command could not be run, or reported failure.
    CommandExecution(String),
    /// The output file could not be written.
    IoError(String),
}

/// A `MonitoringError` with its messages as character sequences.
pub enum MonitoringErrorView {
    CommandExecution(Seq<char>),
    IoError(Seq<char>),
}

impl View for MonitoringError {
    type V = MonitoringErrorView;

    open spec fn view(&self) -> MonitoringErrorView {
        match self {
            MonitoringError::CommandExecution(m) => MonitoringErrorView::CommandExecution(m@),
            MonitoringError::IoError(m) => MonitoringErrorView::IoError(m@),
        }
    }
}

/// A program and the arguments it is to be run with.
#[derive(Debug, PartialEq, Eq)]
pub struct CommandRequest {
    pub program: String,
    pub args: Vec<String>,
}

/// A `CommandRequest` as character sequences.
pub struct CommandRequestView {
    pub program: Seq<char>,
    pub args: Seq<Seq<char>>,
}

impl View for CommandRequest {
    type V = CommandRequestView;

    open spec fn view(&self) -> CommandRequestView {
        CommandRequestView { program: self.program@, args: self.args.deep_view() }
    }
}

/// What running a command gave.
#[derive(Debug, PartialEq, Eq)]
pub enum CommandOutcome {
    /// The program could not be started; the text says why.
    NotStarted(String),
    /// The program ran to its end.
    Exited { success: bool, stdout: Vec<u8>, stderr: Vec<u8> },
}

/// A `CommandOutcome` as sequences.
pub enum CommandOutcomeView {
    NotStarted(Seq<char>),
    Exited { success: bool, stdout: Seq<u8>, stderr: Seq<u8> },
}

impl View for CommandOutcome {
    type V = CommandOutcomeView;

    open spec fn view(&self) -> CommandOutcomeView {
        match self {
            CommandOutcome::NotStarted(detail) => CommandOutcomeView::NotStarted(detail@),
            CommandOutcome::Exited { success, stdout, stderr } => CommandOutcomeView::Exited {
                success: *success,
                stdout: stdout@,
                stderr: stderr@,
            },
        }
    }
}

/// The text that lossy UTF-8 decoding makes of `bytes`: each invalid sequence
/// gives way to U+FFFD.
pub uninterp spec fn lossy_text(bytes: Seq<u8>) -> Seq<char>;

/// The text that `Debug` formatting makes of a list of strings.
pub uninterp spec fn debug_text(items: Seq<Seq<char>>) -> Seq<char>;

/// Decodes `bytes` with `String::from_utf8_lossy`.
///
/// Trusted: the result is a function of the bytes alone, and for valid UTF-8
/// it is the text that the bytes encode.
#[verifier::external_body]
fn decode_lossy(bytes: &Vec<u8>) -> (text: String)
    ensures
        text@ == lossy_text(bytes@),
        valid_utf8(bytes@) ==> text@ == decode_utf8(bytes@),
{
    String::from_utf8_lossy(bytes).into_owned()
}

/// Formats `items` with the `Debug` impl of `Vec<String>`.
///
/// Trusted: the result is a function of the strings alone.
#[verifier::external_body]
fn format_debug(items: &Vec<String>) -> (text: String)
    ensures
        text@ == debug_text(items.deep_view()),
{
    format!("{:?}", items)
}

/// The message for a program that could not be started.
pub open spec fn launch_failure_text(program: Seq<char>, detail: Seq<char>) -> Seq<char> {
    "Failed to execute "@ + program + ": "@ + detail
}

/// The message for a program that ran and reported failure.
pub open spec fn exit_failure_text(
    program: Seq<char>,
    args: Seq<char>,
    stderr: Seq<char>,
) -> Seq<char> {
    "Command failed: "@ + program + " "@ + args + ". Stderr: "@ + stderr
}

/// What a command's outcome means to the monitor: the trimmed text of its
/// standard output where it succeeded, else an error that says what failed.
pub open spec fn command_output(
    request: CommandRequestView,
    outcome: CommandOutcomeView,
) -> Result<Seq<char>, MonitoringErrorView> {
    match outcome {
        CommandOutcomeView::NotStarted(detail) => Err(
            MonitoringErrorView::CommandExecution(launch_failure_text(request.program, detail)),
        ),
        CommandOutcomeView::Exited { success, stdout, stderr } => if success {
            Ok(trim(lossy_text(stdout)))
        } else {
            Err(
                MonitoringErrorView::CommandExecution(
                    exit_failure_text(
                        request.program,
                        debug_text(request.args),
                        lossy_text(stderr),
                    ),
                ),
            )
        },
    }
}

/// A text result and its error, both as character sequences.
pub open spec fn text_result(r: Result<String, MonitoringError>) -> Result<
    Seq<char>,
    MonitoringErrorView,
> {
    match r {
        Ok(t) => Ok(t@),
        Err(e) => Err(e@),
    }
}

/// Builds the message for a program that could not be started.
pub fn launch_failure_message(program: &str, detail: &str) -> (m: String)
    ensures
        m@ == launch_failure_text(program@, detail@),
{
    let mut m = String::from_str("Failed to execute ");
    m.append(program);
    m.append(": ");
    m.append(detail);
    m
}

/// Builds the message for a program that ran and reported failure. `args` is
/// the argument list as text, `stderr` what the program wrote to its error
/// stream.
pub fn exit_failure_message(program: &str, args: &str, stderr: &str) -> (m: String)
    ensures
        m@ == exit_failure_text(program@, args@, stderr@),
{
    let mut m = String::from_str("Command failed: ");
    m.append(program);
    m.append(" ");
    m.append(args);
    m.append(". Stderr: ");
    m.append(stderr);
    m
}

/// Reads the outcome of running `request`.
///
/// A command that exited with success gives its standard output, decoded
/// lossily and trimmed. One that could not be started, or that exited with
/// failure, gives a `CommandExecution` error.
pub fn command_result(request: &CommandRequest, outcome: &CommandOutcome) -> (r: Result<
    String,
    MonitoringError,
>)
    ensures
        text_result(r) == command_output(request@, outcome@),
        outcome matches CommandOutcome::Exited { success, stdout, .. } ==> (*success && valid_utf8(
            stdout@,
        ) ==> text_result(r) == Ok::<Seq<char>, MonitoringErrorView>(trim(decode_utf8(stdout@)))),
{
    match outcome {
        CommandOutcome::NotStarted(detail) => Err(
            MonitoringError::CommandExecution(
                launch_failure_message(request.program.as_str(), detail.as_str()),
            ),
        ),
        CommandOutcome::Exited { success, stdout, stderr } => {
            if *success {
                let text = decode_lossy(stdout);
                Ok(trimmed(text.as_str()))
            } else {
                let args = format_debug(&request.args);
                let errors = decode_lossy(stderr);
                Err(
                    MonitoringError::CommandExecution(
                        exit_failure_message(
                            request.program.as_str(),
                            args.as_str(),
                            errors.as_str(),
                        ),
                    ),
                )
            }
        },
    }
}

} // verus!
