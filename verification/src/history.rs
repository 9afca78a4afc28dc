//! What a run of ticks leaves behind: the monitor's memory and the content of
//! the output file, as a function of the titles that were observed.

use vstd::prelude::*;
use vstd::utf8::encode_utf8;
use crate::command::{command_output, CommandOutcome, CommandOutcomeView};
use crate::monitor::{
    after_write_step, located, lookup_step, needs_write, property_command, search_command,
    title_reading, write_step, LookupEvent, LookupStepView, WindowLookupView, WindowMonitorView,
    WriteEvent, WriteStepView,
};
use crate::poll::{
    after_tick_step, effective_text, settle_step, sleep_action, tick_step, DiagnosticView,
    TickActionView, TickEvent,
};

verus! {

/// A title that a tick settled on, and whether the output file took the write
/// that the tick may have asked for.
pub struct Observation {
    pub title: Seq<char>,
    pub accepted: bool,
}

/// The monitor together with the file it writes to. The file's content is
/// `None` as long as nothing is known of it.
pub struct Mirror {
    pub monitor: WindowMonitorView,
    pub file: Option<Seq<u8>>,
}

/// Whether a tick that settles on `title` asks for the file to be written.
pub open spec fn asks_write(monitor: WindowMonitorView, title: Seq<char>) -> bool {
    write_step(monitor, title, WriteEvent::Observed) is Write
}

/// The mirror after a tick that settled on `seen.title`. A write that is
/// asked for and accepted replaces the file's content and is remembered; one
/// that is refused leaves file and memory as they were.
pub open spec fn observe(mirror: Mirror, seen: Observation) -> Mirror {
    match write_step(mirror.monitor, seen.title, WriteEvent::Observed) {
        WriteStepView::Write { path, content } => if seen.accepted {
            Mirror {
                monitor: after_write_step(mirror.monitor, seen.title, WriteEvent::Written),
                file: Some(content),
            }
        } else {
            mirror
        },
        WriteStepView::Done(_) => mirror,
    }
}

/// The mirror after the ticks `seen`, in order.
pub open spec fn observe_all(mirror: Mirror, seen: Seq<Observation>) -> Mirror
    decreases seen.len(),
{
    if seen.len() == 0 {
        mirror
    } else {
        observe(observe_all(mirror, seen.drop_last()), seen.last())
    }
}

/// Whether the tick at index `i` of `seen` rewrites the file.
pub open spec fn rewritten_at(mirror: Mirror, seen: Seq<Observation>, i: int) -> bool
    recommends
        0 <= i < seen.len(),
{
    asks_write(observe_all(mirror, seen.take(i)).monitor, seen[i].title) && seen[i].accepted
}

/// Whether the file holds what the monitor remembers to have written.
pub open spec fn in_step(mirror: Mirror) -> bool {
    match mirror.monitor.last_content {
        Some(title) => mirror.file == Some(encode_utf8(title)),
        None => true,
    }
}

/// A monitor that has written nothing yet, beside a file of any content.
pub open spec fn fresh(mirror: Mirror) -> bool {
    mirror.monitor.last_content is None
}

/// Every write in `seen` is accepted.
pub open spec fn all_accepted(seen: Seq<Observation>) -> bool {
    forall|i: int| 0 <= i < seen.len() ==> (#[trigger] seen[i]).accepted
}

/// Once a write has been made, the file holds the title that the monitor
/// remembers: a tick keeps file and memory in step, whether its write is
/// accepted or refused.
pub proof fn law_file_matches_memory(mirror: Mirror, seen: Seq<Observation>)
    requires
        in_step(mirror),
    ensures
        in_step(observe_all(mirror, seen)),
        observe_all(mirror, seen).monitor.class_name == mirror.monitor.class_name,
        observe_all(mirror, seen).monitor.output_file == mirror.monitor.output_file,
    decreases seen.len(),
{
    if seen.len() > 0 {
        law_file_matches_memory(mirror, seen.drop_last());
    }
}

/// After any run of ticks whose writes are all accepted, a monitor that
/// started fresh remembers the title observed last, and the file holds
/// exactly that title's bytes.
pub proof fn law_file_holds_last_title(mirror: Mirror, seen: Seq<Observation>)
    requires
        fresh(mirror),
        all_accepted(seen),
        seen.len() > 0,
    ensures
        observe_all(mirror, seen).monitor.last_content == Some(seen.last().title),
        observe_all(mirror, seen).file == Some(encode_utf8(seen.last().title)),
    decreases seen.len(),
{
    let earlier = seen.drop_last();
    if earlier.len() > 0 {
        law_file_holds_last_title(mirror, earlier);
    } else {
        assert(observe_all(mirror, earlier) == mirror);
    }
}

/// In a run of ticks whose writes are all accepted, started fresh, the file
/// is rewritten at the first tick and then exactly at each tick whose title
/// differs from the one before.
pub proof fn law_rewritten_exactly_on_change(mirror: Mirror, seen: Seq<Observation>, i: int)
    requires
        fresh(mirror),
        all_accepted(seen),
        0 <= i < seen.len(),
    ensures
        rewritten_at(mirror, seen, i) <==> (i == 0 || seen[i].title != seen[i - 1].title),
{
    if i > 0 {
        let earlier = seen.take(i);
        assert(earlier.last() == seen[i - 1]);
        law_file_holds_last_title(mirror, earlier);
    } else {
        assert(seen.take(0).len() == 0);
    }
}

/// A title that has just been written, or skipped, is skipped when it is
/// observed again: the tick asks for no write and shows no status line.
pub proof fn law_repeated_title_skipped(mirror: Mirror, title: Seq<char>)
    ensures
        ({
            let after = observe(mirror, Observation { title, accepted: true });
            &&& after.monitor.last_content == Some(title)
            &&& !asks_write(after.monitor, title)
            &&& observe(after, Observation { title, accepted: true }) == after
            &&& settle_step(after.monitor, Ok(Some(title))).action == sleep_action(None)
        }),
{
}

/// Whatever the window search gave, the lookup goes on to ask the window that
/// was found for its title, or ends without a title: a search that failed is
/// not told apart from one that matched no window, and is no error.
pub proof fn law_search_gives_window_or_none(class_name: Seq<char>, outcome: CommandOutcome)
    ensures
        match located(command_output(search_command(class_name), outcome@)) {
            Ok(WindowLookupView::Found(id)) => id.len() > 0 && lookup_step(
                class_name,
                LookupEvent::Searched(outcome),
            ) == (LookupStepView::Query { window_id: id, request: property_command(id) }),
            Ok(_) => lookup_step(class_name, LookupEvent::Searched(outcome))
                == LookupStepView::Done(Ok(None)),
            Err(_) => false,
        },
{
}

/// Whether a search for windows of `class_name` that ended with `outcome`
/// found none: none matched, or the search failed.
pub open spec fn no_window(class_name: Seq<char>, outcome: CommandOutcomeView) -> bool {
    match located(command_output(search_command(class_name), outcome)) {
        Ok(WindowLookupView::NotFound) => true,
        Ok(WindowLookupView::QueryError(_)) => true,
        _ => false,
    }
}

/// A window search that finds no window, or fails, ends the lookup with the
/// empty title. Where the title written last was not empty, the tick asks for
/// the file to be emptied, and once that is done the empty title is skipped:
/// the file is written once.
pub proof fn law_missing_window_empties_file(
    mirror: Mirror,
    outcome: CommandOutcome,
    time: Seq<char>,
)
    requires
        no_window(mirror.monitor.class_name, outcome@),
    ensures
        tick_step(mirror.monitor, TickEvent::Searched(outcome), time) == settle_step(
            mirror.monitor,
            Ok(None),
        ),
        effective_text(Ok(None)) == Seq::<char>::empty(),
        mirror.monitor.last_content is Some && mirror.monitor.last_content->0.len() > 0 ==> ({
            let nothing = Seq::<char>::empty();
            let after = observe(mirror, Observation { title: nothing, accepted: true });
            &&& tick_step(mirror.monitor, TickEvent::Searched(outcome), time).action == (
            TickActionView::Write {
                title: nothing,
                path: mirror.monitor.output_file,
                content: Seq::<u8>::empty(),
            })
            &&& after.file == Some(Seq::<u8>::empty())
            &&& after.monitor.last_content == Some(nothing)
            &&& !asks_write(after.monitor, nothing)
        }),
{
    assert(encode_utf8(Seq::<char>::empty()) == Seq::<u8>::empty());
}

/// A title query that fails is logged and leaves the monitor's memory alone:
/// the tick goes on with the empty title, which is compared with the title
/// that was written last.
pub proof fn law_failed_query_keeps_memory(
    monitor: WindowMonitorView,
    window_id: String,
    outcome: CommandOutcome,
    time: Seq<char>,
)
    requires
        title_reading(window_id@, outcome@) is Err,
    ensures
        ({
            let event = TickEvent::Queried { window_id, outcome };
            let failure = title_reading(window_id@, outcome@)->Err_0;
            let step = tick_step(monitor, event, time);
            &&& after_tick_step(monitor, event) == monitor
            &&& step.diagnostic == Some(DiagnosticView::TitleUnavailable(failure))
            &&& step.action is Write <==> needs_write(
                monitor.last_content,
                Seq::<char>::empty(),
            )
            &&& step.action is Write ==> step.action->Write_title == Seq::<char>::empty()
            &&& !(step.action is Write) ==> step.action == sleep_action(None)
        }),
{
}

/// No event but a write that was made changes what the monitor remembers.
pub proof fn law_memory_changes_on_write_only(monitor: WindowMonitorView, event: TickEvent)
    ensures
        !(event is Written) ==> after_tick_step(monitor, event) == monitor,
        event is Written ==> after_tick_step(monitor, event).last_content == Some(
            event->Written_title@,
        ),
{
}

} // verus!
