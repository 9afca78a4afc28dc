//! The monitor: which window it watches, where it writes, and what it wrote
//! last. Its two operations are step functions: each takes what has just
//! happened and answers with what is to be done next.

use vstd::prelude::*;
use crate::command::{
    command_output, command_result, text_result, CommandOutcome, CommandOutcomeView,
    CommandRequest, CommandRequestView, MonitoringError, MonitoringErrorView,
};
use crate::text::{first_line, first_line_of, parse_title, text_of, title_of, trim, trimmed};

verus! {

/// The class of the windows that the monitor is run for.
pub const CLASS_NAME: &'static str = "cloudmusic.exe";

/// The file that the monitor is run on.
pub const OUTPUT_FILE: &'static str = "title.txt";

/// The query that finds the first window of a class.
pub open spec fn search_command(class_name: Seq<char>) -> CommandRequestView {
    CommandRequestView {
        program: "xdotool"@,
        args: seq!["search"@, "--classname"@, "--limit"@, "1"@, class_name],
    }
}

/// The query that asks a window for its title.
pub open spec fn property_command(window_id: Seq<char>) -> CommandRequestView {
    CommandRequestView { program: "xprop"@, args: seq!["-id"@, window_id, "WM_NAME"@] }
}

/// Builds the query that finds the first window of class `class_name`.
pub fn search_request(class_name: &str) -> (request: CommandRequest)
    ensures
        request@ == search_command(class_name@),
{
    let mut args: Vec<String> = Vec::new();
    args.push(String::from_str("search"));
    args.push(String::from_str("--classname"));
    args.push(String::from_str("--limit"));
    args.push(String::from_str("1"));
    args.push(String::from_str(class_name));
    let request = CommandRequest { program: String::from_str("xdotool"), args };
    assert(request@.args =~= search_command(class_name@).args);
    request
}

/// Builds the query that asks the window `window_id` for its title.
pub fn property_request(window_id: &str) -> (request: CommandRequest)
    ensures
        request@ == property_command(window_id@),
{
    let mut args: Vec<String> = Vec::new();
    args.push(String::from_str("-id"));
    args.push(String::from_str(window_id));
    args.push(String::from_str("WM_NAME"));
    let request = CommandRequest { program: String::from_str("xprop"), args };
    assert(request@.args =~= property_command(window_id@).args);
    request
}

/// What the window search found.
#[derive(Debug, PartialEq, Eq)]
pub enum WindowLookup {
    /// The identifier of the first matching window.
    Found(String),
    /// The search ran and matched no window.
    NotFound,
    /// The search could not be run or reported failure; the text says how.
    QueryError(String),
}

/// A `WindowLookup` as character sequences.
pub enum WindowLookupView {
    Found(Seq<char>),
    NotFound,
    QueryError(Seq<char>),
}

impl View for WindowLookup {
    type V = WindowLookupView;

    open spec fn view(&self) -> WindowLookupView {
        match self {
            WindowLookup::Found(id) => WindowLookupView::Found(id@),
            WindowLookup::NotFound => WindowLookupView::NotFound,
            WindowLookup::QueryError(detail) => WindowLookupView::QueryError(detail@),
        }
    }
}

/// A lookup and its error, as character sequences.
pub open spec fn lookup_result(r: Result<WindowLookup, MonitoringError>) -> Result<
    WindowLookupView,
    MonitoringErrorView,
> {
    match r {
        Ok(found) => Ok(found@),
        Err(e) => Err(e@),
    }
}

/// A title result and its error, as character sequences.
pub open spec fn title_result(r: Result<Option<String>, MonitoringError>) -> Result<
    Option<Seq<char>>,
    MonitoringErrorView,
> {
    match r {
        Ok(title) => Ok(text_of(title)),
        Err(e) => Err(e@),
    }
}

/// The identifier that the window search's answer names first: its first
/// line, without surrounding whitespace.
pub open spec fn first_window(answer: Seq<char>) -> Seq<char> {
    trim(first_line(trim(answer)))
}

/// How the window search's result is read: an answer names the window on its
/// first line, an answer that names none means that none matched, and a command
/// that failed means that the search itself did. Any other error is passed on.
pub open spec fn located(searched: Result<Seq<char>, MonitoringErrorView>) -> Result<
    WindowLookupView,
    MonitoringErrorView,
> {
    match searched {
        Ok(answer) => if first_window(answer).len() > 0 {
            Ok(WindowLookupView::Found(first_window(answer)))
        } else {
            Ok(WindowLookupView::NotFound)
        },
        Err(MonitoringErrorView::CommandExecution(detail)) => Ok(
            WindowLookupView::QueryError(detail),
        ),
        Err(e) => Err(e),
    }
}

/// What the title query's outcome means: the title in its answer, no title
/// where the answer holds no `=`, or the error of the query.
pub open spec fn title_reading(window_id: Seq<char>, outcome: CommandOutcomeView) -> Result<
    Option<Seq<char>>,
    MonitoringErrorView,
> {
    match command_output(property_command(window_id), outcome) {
        Ok(answer) => Ok(title_of(answer)),
        Err(e) => Err(e),
    }
}

/// Reads the result of the window search.
pub fn locate_window(searched: Result<String, MonitoringError>) -> (r: Result<
    WindowLookup,
    MonitoringError,
>)
    ensures
        lookup_result(r) == located(text_result(searched)),
{
    match searched {
        Ok(answer) => {
            let answer = trimmed(answer.as_str());
            let line = first_line_of(answer.as_str());
            let id = trimmed(line.as_str());
            if id.as_str().is_empty() {
                Ok(WindowLookup::NotFound)
            } else {
                Ok(WindowLookup::Found(id))
            }
        },
        Err(MonitoringError::CommandExecution(detail)) => Ok(WindowLookup::QueryError(detail)),
        Err(e) => Err(e),
    }
}

/// Reads the outcome of the title query that was run for `window_id`.
pub fn read_title(window_id: &str, outcome: &CommandOutcome) -> (r: Result<
    Option<String>,
    MonitoringError,
>)
    ensures
        title_result(r) == title_reading(window_id@, outcome@),
{
    let request = property_request(window_id);
    match command_result(&request, outcome) {
        Ok(answer) => Ok(parse_title(answer.as_str())),
        Err(e) => Err(e),
    }
}

/// What has just happened in a title lookup.
#[derive(Debug, PartialEq, Eq)]
pub enum LookupEvent {
    /// The lookup begins.
    Begin,
    /// The window search has been run, with this outcome.
    Searched(CommandOutcome),
    /// The title query for `window_id` has been run, with this outcome.
    Queried { window_id: String, outcome: CommandOutcome },
}

/// What a title lookup asks for next.
#[derive(Debug, PartialEq, Eq)]
pub enum LookupStep {
    /// Run the window search and report `LookupEvent::Searched`.
    Search(CommandRequest),
    /// Run the title query and report `LookupEvent::Queried` for `window_id`.
    Query { window_id: String, request: CommandRequest },
    /// The lookup is over: a title, no window or no title, or an error.
    Done(Result<Option<String>, MonitoringError>),
}

/// A `LookupStep` as character sequences.
pub enum LookupStepView {
    Search(CommandRequestView),
    Query { window_id: Seq<char>, request: CommandRequestView },
    Done(Result<Option<Seq<char>>, MonitoringErrorView>),
}

impl View for LookupStep {
    type V = LookupStepView;

    open spec fn view(&self) -> LookupStepView {
        match self {
            LookupStep::Search(request) => LookupStepView::Search(request@),
            LookupStep::Query { window_id, request } => LookupStepView::Query {
                window_id: window_id@,
                request: request@,
            },
            LookupStep::Done(r) => LookupStepView::Done(title_result(*r)),
        }
    }
}

/// The step that follows `event` in a lookup for windows of `class_name`.
///
/// At the beginning the window search is run. After the search, a window that
/// was found is asked for its title; where none was found, or the search
/// failed, the lookup ends without a title. After the title query the lookup
/// ends with what the query's outcome means.
pub open spec fn lookup_step(class_name: Seq<char>, event: LookupEvent) -> LookupStepView {
    match event {
        LookupEvent::Begin => LookupStepView::Search(search_command(class_name)),
        LookupEvent::Searched(outcome) => match located(
            command_output(search_command(class_name), outcome@),
        ) {
            Ok(WindowLookupView::Found(id)) => LookupStepView::Query {
                window_id: id,
                request: property_command(id),
            },
            Ok(_) => LookupStepView::Done(Ok(None)),
            Err(e) => LookupStepView::Done(Err(e)),
        },
        LookupEvent::Queried { window_id, outcome } => LookupStepView::Done(
            title_reading(window_id@, outcome@),
        ),
    }
}

/// What has just happened to a title that is to be mirrored.
#[derive(Debug, PartialEq, Eq)]
pub enum WriteEvent {
    /// The title has been observed.
    Observed,
    /// The output file has been overwritten with the title.
    Written,
    /// Overwriting the output file failed; the text says why.
    Failed(String),
}

/// A file and the bytes that are to replace its content.
#[derive(Debug, PartialEq, Eq)]
pub struct FileWrite {
    pub path: String,
    pub content: Vec<u8>,
}

/// What the writer asks for next.
#[derive(Debug, PartialEq, Eq)]
pub enum WriteStep {
    /// Overwrite the file and report `WriteEvent::Written` or
    /// `WriteEvent::Failed`.
    Write(FileWrite),
    /// Nothing is left to do: `Ok(true)` after a write, `Ok(false)` where the
    /// title had not changed, the error where the write failed.
    Done(Result<bool, MonitoringError>),
}

/// A `WriteStep` as sequences.
pub enum WriteStepView {
    Write { path: Seq<char>, content: Seq<u8> },
    Done(Result<bool, MonitoringErrorView>),
}

impl View for WriteStep {
    type V = WriteStepView;

    open spec fn view(&self) -> WriteStepView {
        match self {
            WriteStep::Write(w) => WriteStepView::Write { path: w.path@, content: w.content@ },
            WriteStep::Done(Ok(wrote)) => WriteStepView::Done(Ok(*wrote)),
            WriteStep::Done(Err(e)) => WriteStepView::Done(Err(e@)),
        }
    }
}

/// Watches the windows of one class and mirrors the title into one file.
#[derive(Debug, PartialEq, Eq)]
pub struct WindowMonitor {
    class_name: String,
    output_file: String,
    last_content: Option<String>,
}

/// A `WindowMonitor` as character sequences.
pub struct WindowMonitorView {
    pub class_name: Seq<char>,
    pub output_file: Seq<char>,
    /// The title that was written last, `None` before the first write.
    pub last_content: Option<Seq<char>>,
}

impl View for WindowMonitor {
    type V = WindowMonitorView;

    closed spec fn view(&self) -> WindowMonitorView {
        WindowMonitorView {
            class_name: self.class_name@,
            output_file: self.output_file@,
            last_content: text_of(self.last_content),
        }
    }
}

/// Whether `current` differs from what was written last. Before the first
/// write every title does.
pub open spec fn needs_write(last: Option<Seq<char>>, current: Seq<char>) -> bool {
    last != Some(current)
}

/// The step that follows `event` for the title `current`.
///
/// A title that was observed is written where it differs from the last one
/// written, and skipped where it does not. A write that succeeded or failed
/// ends the step with that result.
pub open spec fn write_step(
    monitor: WindowMonitorView,
    current: Seq<char>,
    event: WriteEvent,
) -> WriteStepView {
    match event {
        WriteEvent::Observed => if needs_write(monitor.last_content, current) {
            WriteStepView::Write {
                path: monitor.output_file,
                content: vstd::utf8::encode_utf8(current),
            }
        } else {
            WriteStepView::Done(Ok(false))
        },
        WriteEvent::Written => WriteStepView::Done(Ok(true)),
        WriteEvent::Failed(detail) => WriteStepView::Done(
            Err(MonitoringErrorView::IoError(detail@)),
        ),
    }
}

/// The monitor after `event` for the title `current`: only a write that
/// succeeded changes it, and then `current` is what was written last.
pub open spec fn after_write_step(
    monitor: WindowMonitorView,
    current: Seq<char>,
    event: WriteEvent,
) -> WindowMonitorView {
    match event {
        WriteEvent::Written => WindowMonitorView { last_content: Some(current), ..monitor },
        _ => monitor,
    }
}

impl WindowMonitor {
    /// A monitor for the windows of class `class_name` that writes to
    /// `output_file` and has written nothing yet.
    pub fn new(class_name: &str, output_file: &str) -> (monitor: WindowMonitor)
        ensures
            monitor@ == (WindowMonitorView {
                class_name: class_name@,
                output_file: output_file@,
                last_content: None,
            }),
    {
        WindowMonitor {
            class_name: String::from_str(class_name),
            output_file: String::from_str(output_file),
            last_content: None,
        }
    }

    /// The class of the windows that are watched.
    pub fn class_name(&self) -> (name: &str)
        ensures
            name@ == self@.class_name,
    {
        self.class_name.as_str()
    }

    /// The path of the file that the title is mirrored into.
    pub fn output_file(&self) -> (path: &str)
        ensures
            path@ == self@.output_file,
    {
        self.output_file.as_str()
    }

    /// The title that was written last, `None` before the first write.
    pub fn last_content(&self) -> (last: Option<&str>)
        ensures
            match last {
                Some(title) => self@.last_content == Some(title@),
                None => self@.last_content is None,
            },
    {
        match &self.last_content {
            Some(title) => Some(title.as_str()),
            None => None,
        }
    }

    /// One step of finding the window and reading its title.
    ///
    /// Called with `LookupEvent::Begin`, then with the event that each
    /// answer asks for, until the answer is `LookupStep::Done`.
    pub fn get_window_name(&self, event: LookupEvent) -> (step: LookupStep)
        ensures
            step@ == lookup_step(self@.class_name, event),
    {
        match event {
            LookupEvent::Begin => LookupStep::Search(search_request(self.class_name.as_str())),
            LookupEvent::Searched(outcome) => {
                let request = search_request(self.class_name.as_str());
                match locate_window(command_result(&request, &outcome)) {
                    Ok(WindowLookup::Found(id)) => {
                        let request = property_request(id.as_str());
                        LookupStep::Query { window_id: id, request }
                    },
                    Ok(_) => LookupStep::Done(Ok(None)),
                    Err(e) => LookupStep::Done(Err(e)),
                }
            },
            LookupEvent::Queried { window_id, outcome } => LookupStep::Done(
                read_title(window_id.as_str(), &outcome),
            ),
        }
    }

    /// One step of mirroring the title `current` into the output file.
    ///
    /// Called with `WriteEvent::Observed` for the title of the tick. Where
    /// the answer is `WriteStep::Write`, the file is to be overwritten, and
    /// the function is called again with how that went.
    pub fn write_content_if_changed(&mut self, current: &str, event: WriteEvent) -> (step:
        WriteStep)
        ensures
            step@ == write_step(old(self)@, current@, event),
            final(self)@ == after_write_step(old(self)@, current@, event),
    {
        match event {
            WriteEvent::Observed => {
                let unchanged = match &self.last_content {
                    Some(last) => *last == String::from_str(current),
                    None => false,
                };
                if unchanged {
                    WriteStep::Done(Ok(false))
                } else {
                    WriteStep::Write(
                        FileWrite { path: self.output_file.clone(), content: current.as_bytes_vec() },
                    )
                }
            },
            WriteEvent::Written => {
                self.last_content = Some(String::from_str(current));
                WriteStep::Done(Ok(true))
            },
            WriteEvent::Failed(detail) => WriteStep::Done(Err(MonitoringError::IoError(detail))),
        }
    }
}

} // verus!
