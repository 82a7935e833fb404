use capsense::counters::{track_focus_sync_spawn, DebugCounters};
use capsense::report::{dbg_check_sanity, dbg_dump};
use capsense::text::to_decimal;

#[test]
fn decimal_matches_std_formatting() {
    for v in [0u64, 7, 9, 10, 42, 100, 120, 1999, 4294967295, u64::MAX] {
        assert_eq!(to_decimal(v), format!("{}", v));
    }
}

#[test]
fn dump_of_fresh_counters() {
    let c = DebugCounters::new();
    let lines = dbg_dump(&c);
    let expected = vec![
        "=== Capsense Debug Snapshot ===",
        "Hook threads spawned:   0",
        "Focus sync spawned:     0",
        "Mouse sync spawned:     0",
        "Threads in flight:      0",
        "Thread peak:            0",
        "---",
        "Kbd hook panics:        0",
        "Mouse hook panics:      0",
        "Focus event panics:     0",
        "Msg window panics:      0",
        "---",
        "GetMessage errors (main):     0",
        "GetMessage errors (msg win):  0",
        "WM_QUIT received:             0",
        "WM_CLOSE received:            0",
        "---",
        "SendMsg timeouts:       0",
        "SendMsg success:        0",
        "===============================",
    ];
    assert_eq!(lines, expected);
}

#[test]
fn dump_shows_each_counter_in_its_place() {
    let mut c = DebugCounters::new();
    c.hook_thread_spawned = 11;
    c.focus_sync_thread_spawned = 22;
    c.mouse_sync_thread_spawned = 33;
    c.threads_in_flight = 4;
    c.thread_peak = 55;
    c.keyboard_hook_panics = 6;
    c.mouse_hook_panics = 7;
    c.focus_event_panics = 8;
    c.message_window_panics = 9;
    c.getmessage_errors_main = 10;
    c.getmessage_errors_msg_window = 12;
    c.wm_quit_received = 13;
    c.wm_close_received = 14;
    c.sendmsg_timeouts = 150;
    c.sendmsg_success = 1600;
    let lines = dbg_dump(&c);
    assert_eq!(lines.len(), 20);
    assert_eq!(lines[1], "Hook threads spawned:   11");
    assert_eq!(lines[2], "Focus sync spawned:     22");
    assert_eq!(lines[3], "Mouse sync spawned:     33");
    assert_eq!(lines[4], "Threads in flight:      4");
    assert_eq!(lines[5], "Thread peak:            55");
    assert_eq!(lines[7], "Kbd hook panics:        6");
    assert_eq!(lines[8], "Mouse hook panics:      7");
    assert_eq!(lines[9], "Focus event panics:     8");
    assert_eq!(lines[10], "Msg window panics:      9");
    assert_eq!(lines[12], "GetMessage errors (main):     10");
    assert_eq!(lines[13], "GetMessage errors (msg win):  12");
    assert_eq!(lines[14], "WM_QUIT received:             13");
    assert_eq!(lines[15], "WM_CLOSE received:            14");
    assert_eq!(lines[17], "SendMsg timeouts:       150");
    assert_eq!(lines[18], "SendMsg success:        1600");
}

#[test]
fn sanity_is_quiet_on_healthy_counters() {
    let mut c = DebugCounters::new();
    c.threads_in_flight = 50;
    c.thread_peak = 50;
    c.message_window_panics = 5;
    c.sendmsg_timeouts = 100;
    assert!(dbg_check_sanity(&c).is_empty());
}

#[test]
fn sanity_warns_of_thread_leak() {
    let mut c = DebugCounters::new();
    for _ in 0..51 {
        track_focus_sync_spawn(&mut c);
    }
    let w = dbg_check_sanity(&c);
    assert_eq!(w, vec!["WARNING: 51 threads in flight (peak: 51) — possible thread leak"]);
}

#[test]
fn sanity_warns_of_caught_panics() {
    let mut c = DebugCounters::new();
    c.keyboard_hook_panics = 1;
    c.mouse_hook_panics = 2;
    c.focus_event_panics = 3;
    let w = dbg_check_sanity(&c);
    assert_eq!(w, vec!["WARNING: 6 hook callback panics caught"]);
}

#[test]
fn sanity_warns_of_hung_window() {
    let mut c = DebugCounters::new();
    c.sendmsg_timeouts = 101;
    let w = dbg_check_sanity(&c);
    assert_eq!(w, vec!["WARNING: 101 SendMessage timeouts — IME window may be hung"]);
}

#[test]
fn sanity_warnings_come_in_order() {
    let mut c = DebugCounters::new();
    c.threads_in_flight = 60;
    c.thread_peak = 75;
    c.focus_event_panics = 2;
    c.sendmsg_timeouts = 500;
    let w = dbg_check_sanity(&c);
    assert_eq!(
        w,
        vec![
            "WARNING: 60 threads in flight (peak: 75) — possible thread leak",
            "WARNING: 2 hook callback panics caught",
            "WARNING: 500 SendMessage timeouts — IME window may be hung",
        ]
    );
}
