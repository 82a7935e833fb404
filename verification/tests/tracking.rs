use capsense::counters::{
    track_focus_sync_done, track_focus_sync_spawn, track_hook_thread_done,
    track_hook_thread_spawn, track_mouse_sync_done, track_mouse_sync_spawn, DebugCounters,
};

#[test]
fn test_debug_module_thread_tracking() {
    let mut c = DebugCounters::new();
    let mut spawned: u32 = 0;
    let mut completed: u32 = 0;
    for _ in 0..100 {
        track_hook_thread_spawn(&mut c);
        spawned += 1;
    }
    for _ in 0..100 {
        track_hook_thread_done(&mut c);
        completed += 1;
    }
    assert_eq!(spawned, 100);
    assert_eq!(completed, 100);
    assert_eq!(c.hook_thread_spawned, 100);
    assert_eq!(c.threads_in_flight, 0, "Threads still in flight");
    assert!(c.thread_peak > 0, "Peak should be positive");
    assert_eq!(c.thread_peak, 100);
}

#[test]
fn new_counters_are_all_zero() {
    let c = DebugCounters::new();
    assert_eq!(c.hook_thread_spawned, 0);
    assert_eq!(c.focus_sync_thread_spawned, 0);
    assert_eq!(c.mouse_sync_thread_spawned, 0);
    assert_eq!(c.thread_peak, 0);
    assert_eq!(c.threads_in_flight, 0);
    assert_eq!(c.keyboard_hook_panics, 0);
    assert_eq!(c.sendmsg_success, 0);
}

#[test]
fn each_spawn_kind_counts_separately() {
    let mut c = DebugCounters::new();
    track_hook_thread_spawn(&mut c);
    track_focus_sync_spawn(&mut c);
    track_focus_sync_spawn(&mut c);
    track_mouse_sync_spawn(&mut c);
    track_mouse_sync_spawn(&mut c);
    track_mouse_sync_spawn(&mut c);
    assert_eq!(c.hook_thread_spawned, 1);
    assert_eq!(c.focus_sync_thread_spawned, 2);
    assert_eq!(c.mouse_sync_thread_spawned, 3);
    assert_eq!(c.threads_in_flight, 6);
    assert_eq!(c.thread_peak, 6);
}

#[test]
fn done_undoes_spawn_in_flight() {
    let mut c = DebugCounters::new();
    c.threads_in_flight = 7;
    c.thread_peak = 9;
    track_focus_sync_spawn(&mut c);
    assert_eq!(c.threads_in_flight, 8);
    assert_eq!(c.thread_peak, 9);
    track_focus_sync_done(&mut c);
    assert_eq!(c.threads_in_flight, 7);
    assert_eq!(c.focus_sync_thread_spawned, 1);
    assert_eq!(c.thread_peak, 9);
}

#[test]
fn peak_is_highest_in_flight_and_never_drops() {
    let mut c = DebugCounters::new();
    track_hook_thread_spawn(&mut c);
    track_mouse_sync_spawn(&mut c);
    track_hook_thread_spawn(&mut c);
    track_hook_thread_done(&mut c);
    track_mouse_sync_done(&mut c);
    track_focus_sync_spawn(&mut c);
    assert_eq!(c.threads_in_flight, 2);
    assert_eq!(c.thread_peak, 3);
    track_focus_sync_done(&mut c);
    track_hook_thread_done(&mut c);
    assert_eq!(c.threads_in_flight, 0);
    assert_eq!(c.thread_peak, 3);
}

#[test]
fn done_on_empty_wraps_like_a_shared_counter() {
    let mut c = DebugCounters::new();
    track_mouse_sync_done(&mut c);
    assert_eq!(c.threads_in_flight, u32::MAX);
    assert_eq!(c.thread_peak, 0);
}

#[test]
fn spawn_counter_wraps_at_maximum() {
    let mut c = DebugCounters::new();
    c.hook_thread_spawned = u64::MAX;
    track_hook_thread_spawn(&mut c);
    assert_eq!(c.hook_thread_spawned, 0);
    assert_eq!(c.threads_in_flight, 1);
}

#[test]
fn tracking_leaves_other_counters_alone() {
    let mut c = DebugCounters::new();
    c.keyboard_hook_panics = 3;
    c.wm_quit_received = 1;
    c.sendmsg_timeouts = 42;
    track_hook_thread_spawn(&mut c);
    track_hook_thread_done(&mut c);
    assert_eq!(c.keyboard_hook_panics, 3);
    assert_eq!(c.wm_quit_received, 1);
    assert_eq!(c.sendmsg_timeouts, 42);
    assert_eq!(c.mouse_sync_thread_spawned, 0);
}
