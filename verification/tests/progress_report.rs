use next_dev::progress::{
    profile_should_exit, progress_line, NapiUpdateInfo, ProgressLine, UpdateInfo,
    UpdateInfoSubscription,
};

fn info(reasons: &str, duration_ms: u64, tasks: u64) -> UpdateInfo {
    UpdateInfo { duration_ms, tasks, reasons: reasons.to_string() }
}

#[test]
fn detailed_logging_prints_reasons_and_counts() {
    let (counter, line) = progress_line(true, Some(info("src/a.js changed", 250, 12)), 5);
    assert_eq!(counter, 0);
    match line {
        ProgressLine::Event { reasons, duration_ms, tasks } => {
            assert_eq!(reasons, "src/a.js changed");
            assert_eq!(duration_ms, 250);
            assert_eq!(tasks, 12);
        }
        _ => panic!("detailed logging with reasons prints the event line"),
    }
}

#[test]
fn detailed_logging_without_reasons_prints_compilation() {
    let (_, line) = progress_line(true, Some(info("", 250, 12)), 0);
    assert!(matches!(line, ProgressLine::Compilation { duration_ms: 250, tasks: 12 }));
}

#[test]
fn plain_logging_prints_reasons_without_counts() {
    let (_, line) = progress_line(false, Some(info("src/a.js changed", 250, 12)), 0);
    match line {
        ProgressLine::EventPlain { reasons, duration_ms } => {
            assert_eq!(reasons, "src/a.js changed");
            assert_eq!(duration_ms, 250);
        }
        _ => panic!("plain logging with reasons prints the plain event line"),
    }
}

#[test]
fn plain_logging_reports_only_slow_compilations() {
    let (_, slow) = progress_line(false, Some(info("", 1500, 3)), 0);
    assert!(matches!(slow, ProgressLine::CompilationSlow { duration_ms: 1500 }));
    let (_, fast) = progress_line(false, Some(info("", 900, 3)), 0);
    assert!(matches!(fast, ProgressLine::Silent));
}

#[test]
fn empty_windows_spin_and_count_up() {
    let (counter, line) = progress_line(false, None, 2);
    assert_eq!(counter, 3);
    assert!(matches!(line, ProgressLine::Spinner { seconds: 3 }));
    let (counter2, _) = progress_line(false, None, counter);
    assert_eq!(counter2, 4);
}

#[test]
fn bridge_statistics_wrap_at_32_bits() {
    let r = NapiUpdateInfo::from_update_info(&info("", (1u64 << 32) + 5, 7));
    assert_eq!(r.duration, 5);
    assert_eq!(r.tasks, 7);
    let small = NapiUpdateInfo::from_update_info(&info("", 1234, 56));
    assert_eq!(small.duration, 1234);
    assert_eq!(small.tasks, 56);
}

#[test]
fn delivery_loop_stops_for_good_when_the_sink_fails() {
    let mut s = UpdateInfoSubscription::new();
    assert!(s.step(true));
    assert!(s.step(true));
    assert_eq!(s.delivered, 2);
    assert!(!s.step(false));
    assert!(s.stopped);
    // The loop never resumes, and the count stands.
    assert!(!s.step(true));
    assert_eq!(s.delivered, 2);
}

#[test]
fn profiling_exits_only_with_nothing_in_flight() {
    assert!(profile_should_exit(0));
    assert!(!profile_should_exit(3));
}
