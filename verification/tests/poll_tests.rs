use title_monitor::clock::time_of_day;
use title_monitor::command::{CommandOutcome, MonitoringError};
use title_monitor::monitor::{property_request, search_request, FileWrite, WindowMonitor};
use title_monitor::poll::{
    effective_title, status_line, tick, tick_at, Diagnostic, TickAction, TickEvent, TickStep,
    CHECK_INTERVAL,
};

fn ok(stdout: &str) -> CommandOutcome {
    CommandOutcome::Exited { success: true, stdout: stdout.as_bytes().to_vec(), stderr: Vec::new() }
}

fn failed(stderr: &str) -> CommandOutcome {
    CommandOutcome::Exited {
        success: false,
        stdout: Vec::new(),
        stderr: stderr.as_bytes().to_vec(),
    }
}

/// What one tick did, as seen from outside.
struct Seen {
    wrote: bool,
    status: Option<String>,
    diagnostics: Vec<Diagnostic>,
}

/// Runs one tick against a window with the given title (`None`: no window)
/// and a file held in memory, which refuses writes while `file_fails` is set.
fn run_tick(
    monitor: &mut WindowMonitor,
    window: Option<&str>,
    query_fails: bool,
    file: &mut Option<Vec<u8>>,
    file_fails: bool,
) -> Seen {
    let mut seen = Seen { wrote: false, status: None, diagnostics: Vec::new() };
    let mut event = TickEvent::Begin;
    let mut steps = 0;
    loop {
        steps += 1;
        assert!(steps <= 4, "a tick takes at most four steps");
        let step = tick_at(monitor, event, "10:00:00");
        if let Some(d) = step.diagnostic {
            seen.diagnostics.push(d);
        }
        event = match step.action {
            TickAction::Search(request) => {
                assert_eq!(request, search_request(monitor.class_name()));
                match window {
                    Some(_) => TickEvent::Searched(ok("77\n")),
                    None => TickEvent::Searched(failed("")),
                }
            }
            TickAction::Query { window_id, request } => {
                assert_eq!(window_id, "77");
                assert_eq!(request, property_request("77"));
                let outcome = if query_fails {
                    failed("BadWindow")
                } else {
                    ok(&format!("WM_NAME(STRING) = \"{}\"\n", window.unwrap()))
                };
                TickEvent::Queried { window_id, outcome }
            }
            TickAction::Write { title, file: FileWrite { path, content } } => {
                assert_eq!(path, monitor.output_file());
                assert_eq!(content, title.as_bytes());
                if file_fails {
                    TickEvent::WriteFailed { title, detail: "disk full".to_string() }
                } else {
                    *file = Some(content);
                    seen.wrote = true;
                    TickEvent::Written { title }
                }
            }
            TickAction::Sleep { status, seconds } => {
                assert_eq!(seconds, 1);
                seen.status = status;
                return seen;
            }
        };
    }
}

#[test]
fn effective_title_falls_back_to_empty() {
    assert_eq!(effective_title(Ok(Some("Song".to_string()))), ("Song".to_string(), None));
    assert_eq!(effective_title(Ok(Some(String::new()))), (String::new(), None));
    assert_eq!(effective_title(Ok(None)), (String::new(), None));
    assert_eq!(
        effective_title(Err(MonitoringError::CommandExecution("x".to_string()))),
        (String::new(), Some(MonitoringError::CommandExecution("x".to_string())))
    );
}

#[test]
fn status_line_shows_time_and_title() {
    assert_eq!(status_line("12:34:56", "Song A"), "[12:34:56] 写入: Song A");
}

#[test]
fn status_line_marks_the_empty_title() {
    assert_eq!(status_line("00:00:01", ""), "[00:00:01] 写入: <空字符> (程序未开启/获取失败)");
}

#[test]
fn time_of_day_is_hours_minutes_seconds() {
    let t = time_of_day();
    let bytes = t.as_bytes();
    assert_eq!(bytes.len(), 8, "{}", t);
    for (i, b) in bytes.iter().enumerate() {
        if i == 2 || i == 5 {
            assert_eq!(*b, b':');
        } else {
            assert!(b.is_ascii_digit());
        }
    }
    let hours: u32 = t[0..2].parse().unwrap();
    let minutes: u32 = t[3..5].parse().unwrap();
    let seconds: u32 = t[6..8].parse().unwrap();
    assert!(hours < 24 && minutes < 60 && seconds <= 60);
}

#[test]
fn ticks_are_one_second_apart() {
    assert_eq!(CHECK_INTERVAL, 1);
}

#[test]
fn tick_begins_with_the_search() {
    let mut m = WindowMonitor::new("player", "title.txt");
    assert_eq!(
        tick_at(&mut m, TickEvent::Begin, "t"),
        TickStep { diagnostic: None, action: TickAction::Search(search_request("player")) }
    );
}

#[test]
fn tick_stamps_the_status_line_with_the_clock() {
    let mut m = WindowMonitor::new("player", "title.txt");
    let step = tick(&mut m, TickEvent::Written { title: "Song A".to_string() });
    assert_eq!(step.diagnostic, None);
    match step.action {
        TickAction::Sleep { status: Some(line), seconds: 1 } => {
            assert!(line.starts_with('['));
            assert!(line.ends_with("] 写入: Song A"));
            assert_eq!(line.len(), "[00:00:00] 写入: Song A".len());
            for (i, b) in line.bytes().enumerate().skip(1).take(8) {
                if i == 3 || i == 6 {
                    assert_eq!(b, b':');
                } else {
                    assert!(b.is_ascii_digit(), "{}", line);
                }
            }
        }
        other => panic!("unexpected action {:?}", other),
    }
    assert_eq!(m.last_content(), Some("Song A"));
}

#[test]
fn tick_without_a_write_needs_no_clock() {
    let mut m = WindowMonitor::new("player", "title.txt");
    assert_eq!(
        tick(&mut m, TickEvent::Begin),
        TickStep { diagnostic: None, action: TickAction::Search(search_request("player")) }
    );
    assert_eq!(
        tick(&mut m, TickEvent::WriteFailed { title: "a".to_string(), detail: "no".to_string() }),
        TickStep {
            diagnostic: Some(Diagnostic::WriteFailed(MonitoringError::IoError("no".to_string()))),
            action: TickAction::Sleep { status: None, seconds: 1 },
        }
    );
}

#[test]
fn end_to_end_four_ticks() {
    let mut m = WindowMonitor::new("player", "title.txt");
    let mut file: Option<Vec<u8>> = None;

    let seen = run_tick(&mut m, Some("Song A"), false, &mut file, false);
    assert!(seen.wrote);
    assert_eq!(file, Some(b"Song A".to_vec()));
    assert_eq!(seen.status, Some("[10:00:00] 写入: Song A".to_string()));
    assert!(seen.diagnostics.is_empty());

    let seen = run_tick(&mut m, Some("Song A"), false, &mut file, false);
    assert!(!seen.wrote);
    assert_eq!(seen.status, None);
    assert_eq!(file, Some(b"Song A".to_vec()));

    let seen = run_tick(&mut m, None, false, &mut file, false);
    assert!(seen.wrote);
    assert_eq!(file, Some(Vec::new()));
    assert_eq!(seen.status, Some("[10:00:00] 写入: <空字符> (程序未开启/获取失败)".to_string()));
    assert!(seen.diagnostics.is_empty());

    let seen = run_tick(&mut m, Some("Song B"), false, &mut file, false);
    assert!(seen.wrote);
    assert_eq!(file, Some(b"Song B".to_vec()));
    assert_eq!(seen.status, Some("[10:00:00] 写入: Song B".to_string()));
}

#[test]
fn file_follows_the_titles_and_is_rewritten_on_change_only() {
    let titles = ["", "", "a", "a", "b", "a", "a", "", "c", "c"];
    let mut m = WindowMonitor::new("player", "title.txt");
    let mut file: Option<Vec<u8>> = Some(b"stale".to_vec());
    for (i, t) in titles.iter().enumerate() {
        let seen = run_tick(&mut m, Some(t), false, &mut file, false);
        let changed = i == 0 || titles[i] != titles[i - 1];
        assert_eq!(seen.wrote, changed, "tick {}", i);
        assert_eq!(seen.status.is_some(), changed, "tick {}", i);
        assert_eq!(file, Some(t.as_bytes().to_vec()));
        assert_eq!(m.last_content(), Some(*t));
    }
}

#[test]
fn the_same_title_twice_writes_once() {
    let mut m = WindowMonitor::new("player", "title.txt");
    let mut file: Option<Vec<u8>> = None;
    let first = run_tick(&mut m, Some("Song A"), false, &mut file, false);
    let second = run_tick(&mut m, Some("Song A"), false, &mut file, false);
    assert!(first.wrote && first.status.is_some());
    assert!(!second.wrote && second.status.is_none());
}

#[test]
fn missing_window_empties_the_file_once() {
    let mut m = WindowMonitor::new("player", "title.txt");
    let mut file: Option<Vec<u8>> = None;
    run_tick(&mut m, Some("Song A"), false, &mut file, false);
    let gone = run_tick(&mut m, None, false, &mut file, false);
    assert!(gone.wrote);
    assert_eq!(file, Some(Vec::new()));
    assert_eq!(m.last_content(), Some(""));
    let still_gone = run_tick(&mut m, None, false, &mut file, false);
    assert!(!still_gone.wrote);
    assert_eq!(still_gone.status, None);
}

#[test]
fn missing_window_ends_the_lookup_at_once() {
    let mut m = WindowMonitor::new("player", "title.txt");
    let step = tick_at(&mut m, TickEvent::Searched(ok("\n")), "t");
    assert_eq!(
        step,
        TickStep {
            diagnostic: None,
            action: TickAction::Write {
                title: String::new(),
                file: FileWrite { path: "title.txt".to_string(), content: Vec::new() },
            },
        }
    );
}

#[test]
fn failed_title_query_is_logged_and_keeps_the_memory() {
    let mut m = WindowMonitor::new("player", "title.txt");
    let mut file: Option<Vec<u8>> = None;
    run_tick(&mut m, Some("Song A"), false, &mut file, false);

    let step = tick_at(
        &mut m,
        TickEvent::Queried { window_id: "77".to_string(), outcome: failed("BadWindow") },
        "t",
    );
    assert_eq!(
        step.diagnostic,
        Some(Diagnostic::TitleUnavailable(MonitoringError::CommandExecution(
            "Command failed: xprop [\"-id\", \"77\", \"WM_NAME\"]. Stderr: BadWindow".to_string()
        )))
    );
    assert_eq!(
        step.action,
        TickAction::Write {
            title: String::new(),
            file: FileWrite { path: "title.txt".to_string(), content: Vec::new() },
        }
    );
    assert_eq!(m.last_content(), Some("Song A"));
}

#[test]
fn failed_title_query_with_refused_write_compares_with_last_written() {
    let mut m = WindowMonitor::new("player", "title.txt");
    let mut file: Option<Vec<u8>> = None;
    run_tick(&mut m, Some("Song A"), false, &mut file, false);

    let broken = run_tick(&mut m, Some("Song A"), true, &mut file, true);
    assert!(!broken.wrote);
    assert_eq!(broken.status, None);
    assert_eq!(broken.diagnostics.len(), 2);
    assert!(matches!(broken.diagnostics[0], Diagnostic::TitleUnavailable(_)));
    assert_eq!(
        broken.diagnostics[1],
        Diagnostic::WriteFailed(MonitoringError::IoError("disk full".to_string()))
    );
    assert_eq!(m.last_content(), Some("Song A"));
    assert_eq!(file, Some(b"Song A".to_vec()));

    let back = run_tick(&mut m, Some("Song A"), false, &mut file, false);
    assert!(!back.wrote);
    assert!(back.diagnostics.is_empty());
}

#[test]
fn refused_write_is_tried_again_on_the_next_tick() {
    let mut m = WindowMonitor::new("player", "title.txt");
    let mut file: Option<Vec<u8>> = None;
    let refused = run_tick(&mut m, Some("Song A"), false, &mut file, true);
    assert!(!refused.wrote);
    assert_eq!(file, None);
    assert_eq!(m.last_content(), None);
    let retried = run_tick(&mut m, Some("Song A"), false, &mut file, false);
    assert!(retried.wrote);
    assert_eq!(file, Some(b"Song A".to_vec()));
}
