//! One tick of the poll loop as a step function: the caller reports what has
//! just happened and is told what to do next, until it is told to sleep.

use vstd::prelude::*;
use crate::clock::{is_time_of_day, time_of_day};
use crate::command::{
    CommandOutcome, CommandRequest, CommandRequestView, MonitoringError, MonitoringErrorView,
};
use crate::monitor::{
    after_write_step, lookup_step, title_result, write_step, FileWrite, LookupEvent, LookupStep,
    LookupStepView, WindowMonitor, WindowMonitorView, WriteEvent, WriteStep, WriteStepView,
};
use crate::text::text_of;

verus! {

/// The title that a tick settles on: the one that the lookup gave, and the
/// empty title where it gave none or failed.
pub open spec fn effective_text(looked_up: Result<Option<Seq<char>>, MonitoringErrorView>) -> Seq<
    char,
> {
    match looked_up {
        Ok(Some(title)) => title,
        _ => Seq::empty(),
    }
}

/// The line that reports a write at `time`: the title, or a marker where the
/// title is empty.
pub open spec fn status_text(time: Seq<char>, title: Seq<char>) -> Seq<char> {
    if title.len() == 0 {
        "["@ + time + "] 写入: <空字符> (程序未开启/获取失败)"@
    } else {
        "["@ + time + "] 写入: "@ + title
    }
}

/// The error that a lookup ended with, if it did.
pub open spec fn lookup_failure(
    looked_up: Result<Option<Seq<char>>, MonitoringErrorView>,
) -> Option<MonitoringErrorView> {
    match looked_up {
        Err(e) => Some(e),
        Ok(_) => None,
    }
}

/// An optional error with its message as a character sequence.
pub open spec fn failure_of(e: Option<MonitoringError>) -> Option<MonitoringErrorView> {
    match e {
        Some(e) => Some(e@),
        None => None,
    }
}

/// Settles on the title of a tick, and hands out the error of a lookup that
/// failed.
pub fn effective_title(looked_up: Result<Option<String>, MonitoringError>) -> (r: (
    String,
    Option<MonitoringError>,
))
    ensures
        r.0@ == effective_text(title_result(looked_up)),
        failure_of(r.1) == lookup_failure(title_result(looked_up)),
{
    match looked_up {
        Ok(Some(title)) => (title, None),
        Ok(None) => (String::new(), None),
        Err(e) => (String::new(), Some(e)),
    }
}

/// Builds the line that reports a write of `title` at `time`.
pub fn status_line(time: &str, title: &str) -> (line: String)
    ensures
        line@ == status_text(time@, title@),
{
    let mut line = String::from_str("[");
    line.append(time);
    if title.is_empty() {
        line.append("] 写入: <空字符> (程序未开启/获取失败)");
    } else {
        line.append("] 写入: ");
        line.append(title);
    }
    line
}

/// The time between two ticks, in seconds.
pub const CHECK_INTERVAL: u64 = 1;

/// What has just happened in the poll loop.
#[derive(Debug, PartialEq, Eq)]
pub enum TickEvent {
    /// A tick begins.
    Begin,
    /// The window search has been run, with this outcome.
    Searched(CommandOutcome),
    /// The title query for `window_id` has been run, with this outcome.
    Queried { window_id: String, outcome: CommandOutcome },
    /// The output file has been overwritten with `title`.
    Written { title: String },
    /// Overwriting the output file with `title` failed; `detail` says why.
    WriteFailed { title: String, detail: String },
}

/// What the poll loop is to do next.
#[derive(Debug, PartialEq, Eq)]
pub enum TickAction {
    /// Run the window search and report `TickEvent::Searched`.
    Search(CommandRequest),
    /// Run the title query and report `TickEvent::Queried` for `window_id`.
    Query { window_id: String, request: CommandRequest },
    /// Overwrite the file and report `TickEvent::Written` or
    /// `TickEvent::WriteFailed` for `title`.
    Write { title: String, file: FileWrite },
    /// The tick is over. Show `status`, if there is one, wait for `seconds`
    /// and report `TickEvent::Begin`.
    Sleep { status: Option<String>, seconds: u64 },
}

/// Something that went wrong in a tick and did not stop it.
#[derive(Debug, PartialEq, Eq)]
pub enum Diagnostic {
    /// The title could not be read; the tick goes on with the empty title.
    TitleUnavailable(MonitoringError),
    /// The file could not be written; the next tick tries again.
    WriteFailed(MonitoringError),
}

/// The answer to an event: what to do next, and what to log.
#[derive(Debug, PartialEq, Eq)]
pub struct TickStep {
    pub diagnostic: Option<Diagnostic>,
    pub action: TickAction,
}

/// A `TickAction` as sequences.
pub enum TickActionView {
    Search(CommandRequestView),
    Query { window_id: Seq<char>, request: CommandRequestView },
    Write { title: Seq<char>, path: Seq<char>, content: Seq<u8> },
    Sleep { status: Option<Seq<char>>, seconds: u64 },
}

/// A `Diagnostic` as sequences.
pub enum DiagnosticView {
    TitleUnavailable(MonitoringErrorView),
    WriteFailed(MonitoringErrorView),
}

/// A `TickStep` as sequences.
pub struct TickStepView {
    pub diagnostic: Option<DiagnosticView>,
    pub action: TickActionView,
}

impl View for TickAction {
    type V = TickActionView;

    open spec fn view(&self) -> TickActionView {
        match self {
            TickAction::Search(request) => TickActionView::Search(request@),
            TickAction::Query { window_id, request } => TickActionView::Query {
                window_id: window_id@,
                request: request@,
            },
            TickAction::Write { title, file } => TickActionView::Write {
                title: title@,
                path: file.path@,
                content: file.content@,
            },
            TickAction::Sleep { status, seconds } => TickActionView::Sleep {
                status: text_of(*status),
                seconds: *seconds,
            },
        }
    }
}

impl View for Diagnostic {
    type V = DiagnosticView;

    open spec fn view(&self) -> DiagnosticView {
        match self {
            Diagnostic::TitleUnavailable(e) => DiagnosticView::TitleUnavailable(e@),
            Diagnostic::WriteFailed(e) => DiagnosticView::WriteFailed(e@),
        }
    }
}

impl View for TickStep {
    type V = TickStepView;

    open spec fn view(&self) -> TickStepView {
        TickStepView {
            diagnostic: match self.diagnostic {
                Some(d) => Some(d@),
                None => None,
            },
            action: self.action@,
        }
    }
}

/// The end of a tick: `status` is shown, if there is one, and the poll
/// interval is waited for.
pub open spec fn sleep_action(status: Option<Seq<char>>) -> TickActionView {
    TickActionView::Sleep { status, seconds: CHECK_INTERVAL }
}

/// The step once the lookup has ended with `looked_up`: the effective title
/// is written where it differs from the last one written, else the tick is
/// over. A lookup that failed is logged.
pub open spec fn settle_step(
    monitor: WindowMonitorView,
    looked_up: Result<Option<Seq<char>>, MonitoringErrorView>,
) -> TickStepView {
    let title = effective_text(looked_up);
    TickStepView {
        diagnostic: match looked_up {
            Err(e) => Some(DiagnosticView::TitleUnavailable(e)),
            Ok(_) => None,
        },
        action: match write_step(monitor, title, WriteEvent::Observed) {
            WriteStepView::Write { path, content } => TickActionView::Write { title, path, content },
            WriteStepView::Done(_) => sleep_action(None),
        },
    }
}

/// The step that carries on a lookup: its queries are passed on, its end is
/// settled.
pub open spec fn lookup_continued(monitor: WindowMonitorView, step: LookupStepView) -> TickStepView {
    match step {
        LookupStepView::Search(request) => TickStepView {
            diagnostic: None,
            action: TickActionView::Search(request),
        },
        LookupStepView::Query { window_id, request } => TickStepView {
            diagnostic: None,
            action: TickActionView::Query { window_id, request },
        },
        LookupStepView::Done(looked_up) => settle_step(monitor, looked_up),
    }
}

/// The step that carries on the writing of `title` at `time`: a write that
/// is asked for is passed on; one that was made ends the tick with a status
/// line, one that failed with a diagnostic, and a skipped one in silence.
pub open spec fn write_continued(
    title: Seq<char>,
    step: WriteStepView,
    time: Seq<char>,
) -> TickStepView {
    match step {
        WriteStepView::Write { path, content } => TickStepView {
            diagnostic: None,
            action: TickActionView::Write { title, path, content },
        },
        WriteStepView::Done(Ok(wrote)) => TickStepView {
            diagnostic: None,
            action: sleep_action(
                if wrote {
                    Some(status_text(time, title))
                } else {
                    None
                },
            ),
        },
        WriteStepView::Done(Err(e)) => TickStepView {
            diagnostic: Some(DiagnosticView::WriteFailed(e)),
            action: sleep_action(None),
        },
    }
}

/// The step that follows `event`, for a monitor in the state `monitor` and a
/// clock that reads `time`.
pub open spec fn tick_step(
    monitor: WindowMonitorView,
    event: TickEvent,
    time: Seq<char>,
) -> TickStepView {
    match event {
        TickEvent::Begin => lookup_continued(
            monitor,
            lookup_step(monitor.class_name, LookupEvent::Begin),
        ),
        TickEvent::Searched(outcome) => lookup_continued(
            monitor,
            lookup_step(monitor.class_name, LookupEvent::Searched(outcome)),
        ),
        TickEvent::Queried { window_id, outcome } => lookup_continued(
            monitor,
            lookup_step(monitor.class_name, LookupEvent::Queried { window_id, outcome }),
        ),
        TickEvent::Written { title } => write_continued(
            title@,
            write_step(monitor, title@, WriteEvent::Written),
            time,
        ),
        TickEvent::WriteFailed { title, detail } => write_continued(
            title@,
            write_step(monitor, title@, WriteEvent::Failed(detail)),
            time,
        ),
    }
}

/// The monitor after `event`: only a write that was made changes it.
pub open spec fn after_tick_step(monitor: WindowMonitorView, event: TickEvent) -> WindowMonitorView {
    match event {
        TickEvent::Written { title } => after_write_step(monitor, title@, WriteEvent::Written),
        _ => monitor,
    }
}

/// Ends a lookup: settles on the title and asks the writer what to do.
fn settle(monitor: &mut WindowMonitor, looked_up: Result<Option<String>, MonitoringError>) -> (step:
    TickStep)
    ensures
        step@ == settle_step(old(monitor)@, title_result(looked_up)),
        final(monitor)@ == old(monitor)@,
{
    let (title, failure) = effective_title(looked_up);
    let diagnostic = match failure {
        Some(e) => Some(Diagnostic::TitleUnavailable(e)),
        None => None,
    };
    let action = match monitor.write_content_if_changed(title.as_str(), WriteEvent::Observed) {
        WriteStep::Write(file) => TickAction::Write { title, file },
        WriteStep::Done(_) => TickAction::Sleep { status: None, seconds: CHECK_INTERVAL },
    };
    TickStep { diagnostic, action }
}

/// Carries on a lookup after `step`.
fn continue_lookup(monitor: &mut WindowMonitor, step: LookupStep) -> (next: TickStep)
    ensures
        next@ == lookup_continued(old(monitor)@, step@),
        final(monitor)@ == old(monitor)@,
{
    match step {
        LookupStep::Search(request) => TickStep {
            diagnostic: None,
            action: TickAction::Search(request),
        },
        LookupStep::Query { window_id, request } => TickStep {
            diagnostic: None,
            action: TickAction::Query { window_id, request },
        },
        LookupStep::Done(looked_up) => settle(monitor, looked_up),
    }
}

/// Carries on the writing of `title` after `step`.
fn continue_write(title: String, step: WriteStep, time: &str) -> (next: TickStep)
    ensures
        next@ == write_continued(title@, step@, time@),
{
    match step {
        WriteStep::Write(file) => TickStep {
            diagnostic: None,
            action: TickAction::Write { title, file },
        },
        WriteStep::Done(Ok(wrote)) => {
            let status = if wrote {
                Some(status_line(time, title.as_str()))
            } else {
                None
            };
            TickStep {
                diagnostic: None,
                action: TickAction::Sleep { status, seconds: CHECK_INTERVAL },
            }
        },
        WriteStep::Done(Err(e)) => TickStep {
            diagnostic: Some(Diagnostic::WriteFailed(e)),
            action: TickAction::Sleep { status: None, seconds: CHECK_INTERVAL },
        },
    }
}

/// One step of the poll loop, for a clock that reads `time`.
///
/// Called with `TickEvent::Begin`, then with the event that each answer asks
/// for. No event stops the loop: what fails is handed out as a diagnostic,
/// and the tick goes on or ends.
pub fn tick_at(monitor: &mut WindowMonitor, event: TickEvent, time: &str) -> (step: TickStep)
    ensures
        step@ == tick_step(old(monitor)@, event, time@),
        final(monitor)@ == after_tick_step(old(monitor)@, event),
{
    match event {
        TickEvent::Begin => {
            let step = monitor.get_window_name(LookupEvent::Begin);
            continue_lookup(monitor, step)
        },
        TickEvent::Searched(outcome) => {
            let step = monitor.get_window_name(LookupEvent::Searched(outcome));
            continue_lookup(monitor, step)
        },
        TickEvent::Queried { window_id, outcome } => {
            let step = monitor.get_window_name(LookupEvent::Queried { window_id, outcome });
            continue_lookup(monitor, step)
        },
        TickEvent::Written { title } => {
            let step = monitor.write_content_if_changed(title.as_str(), WriteEvent::Written);
            continue_write(title, step, time)
        },
        TickEvent::WriteFailed { title, detail } => {
            let step = monitor.write_content_if_changed(
                title.as_str(),
                WriteEvent::Failed(detail),
            );
            continue_write(title, step, time)
        },
    }
}

/// The reading of the clock shows in no step but the one that follows a
/// write that was made.
pub proof fn lemma_time_shows_after_write_only(
    monitor: WindowMonitorView,
    event: TickEvent,
    time: Seq<char>,
    other: Seq<char>,
)
    requires
        !(event is Written),
    ensures
        tick_step(monitor, event, time) == tick_step(monitor, event, other),
{
}

/// One step of the poll loop, stamped with the current local time.
///
/// The step is the one that `tick_at` gives for some time of day; the clock
/// is read after a write only, where its reading shows in the status line.
pub fn tick(monitor: &mut WindowMonitor, event: TickEvent) -> (step: TickStep)
    ensures
        exists|time: Seq<char>|
            is_time_of_day(time) && step@ == tick_step(old(monitor)@, event, time),
        final(monitor)@ == after_tick_step(old(monitor)@, event),
{
    let ghost before = monitor@;
    match &event {
        TickEvent::Written { .. } => {
            let time = time_of_day();
            tick_at(monitor, event, time.as_str())
        },
        _ => {
            proof {
                reveal_strlit("00:00:00");
                assert(is_time_of_day("00:00:00"@));
                lemma_time_shows_after_write_only(before, event, Seq::empty(), "00:00:00"@);
            }
            tick_at(monitor, event, "")
        },
    }
}

} // verus!
