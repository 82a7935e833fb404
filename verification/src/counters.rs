//! The counter set and the thread-tracking transitions on it.
use vstd::prelude::*;

verus! {

/// Every diagnostic counter of one running instance.
///
/// The fields are public: callers that observe a panic, a message-loop error
/// or a shutdown message bump the matching field themselves, as they would a
/// shared counter.
#[derive(Clone, Copy, Debug, PartialEq, Eq)]
pub struct DebugCounters {
    /// Total threads spawned by hook callbacks (CapsLock timer threads).
    pub hook_thread_spawned: u64,
    /// Total focus-sync threads spawned.
    pub focus_sync_thread_spawned: u64,
    /// Total mouse-sync threads spawned.
    pub mouse_sync_thread_spawned: u64,
    /// Highest number of threads seen in flight at a spawn.
    pub thread_peak: u64,
    /// Threads spawned and not yet reported done.
    pub threads_in_flight: u32,
    pub keyboard_hook_panics: u64,
    pub mouse_hook_panics: u64,
    pub focus_event_panics: u64,
    pub message_window_panics: u64,
    pub getmessage_errors_main: u64,
    pub getmessage_errors_msg_window: u64,
    pub wm_quit_received: u64,
    pub wm_close_received: u64,
    pub sendmsg_timeouts: u64,
    pub sendmsg_success: u64,
}

/// The kinds of worker thread whose spawns are counted separately.
#[derive(Clone, Copy, Debug, PartialEq, Eq)]
pub enum ThreadKind {
    Hook,
    FocusSync,
    MouseSync,
}

/// Adding one to a `u64` counter, wrapping past the maximum as a shared
/// counter's `fetch_add` does.
pub open spec fn wrapped_inc(x: u64) -> u64 {
    if x == u64::MAX {
        0
    } else {
        (x + 1) as u64
    }
}

/// Taking one from the in-flight counter, wrapping below zero as a shared
/// counter's `fetch_sub` does.
pub open spec fn wrapped_dec(x: u32) -> u32 {
    if x == 0 {
        u32::MAX
    } else {
        (x - 1) as u32
    }
}

/// The counter set with every counter at zero.
pub open spec fn zero_counters() -> DebugCounters {
    DebugCounters {
        hook_thread_spawned: 0,
        focus_sync_thread_spawned: 0,
        mouse_sync_thread_spawned: 0,
        thread_peak: 0,
        threads_in_flight: 0,
        keyboard_hook_panics: 0,
        mouse_hook_panics: 0,
        focus_event_panics: 0,
        message_window_panics: 0,
        getmessage_errors_main: 0,
        getmessage_errors_msg_window: 0,
        wm_quit_received: 0,
        wm_close_received: 0,
        sendmsg_timeouts: 0,
        sendmsg_success: 0,
    }
}

/// The spawn counter of one thread kind.
pub open spec fn spawned_of(c: DebugCounters, kind: ThreadKind) -> u64 {
    match kind {
        ThreadKind::Hook => c.hook_thread_spawned,
        ThreadKind::FocusSync => c.focus_sync_thread_spawned,
        ThreadKind::MouseSync => c.mouse_sync_thread_spawned,
    }
}

/// The counters after a thread of `kind` is reported spawned: its kind's
/// spawn counter and the in-flight counter go up by one, and the peak is
/// raised to the new in-flight count when that is higher. Nothing else moves.
/// Meaningful where the in-flight counter is below `u32::MAX`.
pub open spec fn after_spawn(c: DebugCounters, kind: ThreadKind) -> DebugCounters {
    let inflight = (c.threads_in_flight + 1) as u32;
    DebugCounters {
        hook_thread_spawned: if kind == ThreadKind::Hook {
            wrapped_inc(c.hook_thread_spawned)
        } else {
            c.hook_thread_spawned
        },
        focus_sync_thread_spawned: if kind == ThreadKind::FocusSync {
            wrapped_inc(c.focus_sync_thread_spawned)
        } else {
            c.focus_sync_thread_spawned
        },
        mouse_sync_thread_spawned: if kind == ThreadKind::MouseSync {
            wrapped_inc(c.mouse_sync_thread_spawned)
        } else {
            c.mouse_sync_thread_spawned
        },
        threads_in_flight: inflight,
        thread_peak: if inflight > c.thread_peak {
            inflight as u64
        } else {
            c.thread_peak
        },
        ..c
    }
}

/// The counters after a thread is reported done: the in-flight counter goes
/// down by one (wrapping below zero); nothing else moves.
pub open spec fn after_done(c: DebugCounters) -> DebugCounters {
    DebugCounters { threads_in_flight: wrapped_dec(c.threads_in_flight), ..c }
}

impl DebugCounters {
    /// A counter set with every counter at zero.
    pub fn new() -> (c: DebugCounters)
        ensures
            c == zero_counters(),
    {
        DebugCounters {
            hook_thread_spawned: 0,
            focus_sync_thread_spawned: 0,
            mouse_sync_thread_spawned: 0,
            thread_peak: 0,
            threads_in_flight: 0,
            keyboard_hook_panics: 0,
            mouse_hook_panics: 0,
            focus_event_panics: 0,
            message_window_panics: 0,
            getmessage_errors_main: 0,
            getmessage_errors_msg_window: 0,
            wm_quit_received: 0,
            wm_close_received: 0,
            sendmsg_timeouts: 0,
            sendmsg_success: 0,
        }
    }
}

/// Records a spawn of a thread of `kind`: bumps its spawn counter and the
/// in-flight counter, and raises the peak to the new in-flight count.
fn track_spawn(counters: &mut DebugCounters, kind: ThreadKind)
    requires
        old(counters).threads_in_flight < u32::MAX,
    ensures
        *final(counters) == after_spawn(*old(counters), kind),
{
    match kind {
        ThreadKind::Hook => {
            counters.hook_thread_spawned = counters.hook_thread_spawned.wrapping_add(1);
        },
        ThreadKind::FocusSync => {
            counters.focus_sync_thread_spawned = counters.focus_sync_thread_spawned.wrapping_add(1);
        },
        ThreadKind::MouseSync => {
            counters.mouse_sync_thread_spawned = counters.mouse_sync_thread_spawned.wrapping_add(1);
        },
    }
    let inflight: u32 = counters.threads_in_flight + 1;
    counters.threads_in_flight = inflight;
    let prev_peak: u64 = counters.thread_peak;
    if inflight as u64 > prev_peak {
        counters.thread_peak = inflight as u64;
    }
}

/// Records that a tracked thread has finished: the in-flight counter goes
/// down by one, wrapping below zero.
fn track_done(counters: &mut DebugCounters)
    ensures
        *final(counters) == after_done(*old(counters)),
{
    counters.threads_in_flight = counters.threads_in_flight.wrapping_sub(1);
}

/// Marks a hook thread as spawned. Called before spawning the timer thread in
/// a hook callback.
pub fn track_hook_thread_spawn(counters: &mut DebugCounters)
    requires
        old(counters).threads_in_flight < u32::MAX,
    ensures
        *final(counters) == after_spawn(*old(counters), ThreadKind::Hook),
{
    track_spawn(counters, ThreadKind::Hook);
}

/// Marks a hook thread as completed. Called when the timer thread exits.
pub fn track_hook_thread_done(counters: &mut DebugCounters)
    ensures
        *final(counters) == after_done(*old(counters)),
{
    track_done(counters);
}

/// Marks a focus-sync thread as spawned.
pub fn track_focus_sync_spawn(counters: &mut DebugCounters)
    requires
        old(counters).threads_in_flight < u32::MAX,
    ensures
        *final(counters) == after_spawn(*old(counters), ThreadKind::FocusSync),
{
    track_spawn(counters, ThreadKind::FocusSync);
}

/// Marks a focus-sync thread as completed.
pub fn track_focus_sync_done(counters: &mut DebugCounters)
    ensures
        *final(counters) == after_done(*old(counters)),
{
    track_done(counters);
}

/// Marks a mouse-sync thread as spawned.
pub fn track_mouse_sync_spawn(counters: &mut DebugCounters)
    requires
        old(counters).threads_in_flight < u32::MAX,
    ensures
        *final(counters) == after_spawn(*old(counters), ThreadKind::MouseSync),
{
    track_spawn(counters, ThreadKind::MouseSync);
}

/// Marks a mouse-sync thread as completed.
pub fn track_mouse_sync_done(counters: &mut DebugCounters)
    ensures
        *final(counters) == after_done(*old(counters)),
{
    track_done(counters);
}


/// One reported thread event.
#[derive(Clone, Copy, Debug, PartialEq, Eq)]
pub enum TrackEvent {
    Spawned(ThreadKind),
    Done,
}

/// The counters after one reported event.
pub open spec fn after_event(c: DebugCounters, e: TrackEvent) -> DebugCounters {
    match e {
        TrackEvent::Spawned(kind) => after_spawn(c, kind),
        TrackEvent::Done => after_done(c),
    }
}

/// The counters after the events, reported in order starting from `c`.
pub open spec fn replay(c: DebugCounters, events: Seq<TrackEvent>) -> DebugCounters
    decreases events.len(),
{
    if events.len() == 0 {
        c
    } else {
        after_event(replay(c, events.drop_last()), events.last())
    }
}

/// The number of spawns among the events.
pub open spec fn spawn_count(events: Seq<TrackEvent>) -> nat
    decreases events.len(),
{
    if events.len() == 0 {
        0
    } else {
        spawn_count(events.drop_last()) + if events.last() is Spawned { 1nat } else { 0nat }
    }
}

/// The number of spawns of threads of `kind` among the events.
pub open spec fn kind_spawn_count(events: Seq<TrackEvent>, kind: ThreadKind) -> nat
    decreases events.len(),
{
    if events.len() == 0 {
        0
    } else {
        kind_spawn_count(events.drop_last(), kind) + if events.last() == TrackEvent::Spawned(kind) {
            1nat
        } else {
            0nat
        }
    }
}

/// The number of completions among the events.
pub open spec fn done_count(events: Seq<TrackEvent>) -> nat
    decreases events.len(),
{
    if events.len() == 0 {
        0
    } else {
        done_count(events.drop_last()) + if events.last() is Done { 1nat } else { 0nat }
    }
}

/// Threads in flight after the events, counted from `start` in flight.
pub open spec fn in_flight_after(start: u32, events: Seq<TrackEvent>) -> int {
    start + spawn_count(events) - done_count(events)
}

/// Along the events, in order from `c`, the in-flight count stays within
/// `0..=u32::MAX`: no prefix reports more completions than there were
/// threads in flight, and no spawn is reported with `u32::MAX` threads in
/// flight. No spawn counter passes `u64::MAX`.
pub open spec fn well_reported(c: DebugCounters, events: Seq<TrackEvent>) -> bool {
    &&& forall|i: int|
        0 <= i <= events.len() ==> 0 <= #[trigger] in_flight_after(c.threads_in_flight, events.take(i))
            <= u32::MAX
    &&& forall|kind: ThreadKind| spawned_of(c, kind) + #[trigger] kind_spawn_count(events, kind) <= u64::MAX
}

/// A thread reported done right after it was reported spawned leaves the
/// in-flight count where it was; the spawn counter of its kind is one up,
/// the peak is no lower, and every other counter is unchanged.
pub proof fn lemma_done_undoes_spawn(c: DebugCounters, kind: ThreadKind)
    requires
        c.threads_in_flight < u32::MAX,
    ensures
        after_done(after_spawn(c, kind)).threads_in_flight == c.threads_in_flight,
        spawned_of(after_done(after_spawn(c, kind)), kind) == wrapped_inc(spawned_of(c, kind)),
        forall|other: ThreadKind| other != kind ==> #[trigger] spawned_of(after_done(after_spawn(c, kind)), other) == spawned_of(c, other),
        after_done(after_spawn(c, kind)).thread_peak >= c.thread_peak,
        ({
            let d = after_done(after_spawn(c, kind));
            &&& d.keyboard_hook_panics == c.keyboard_hook_panics
            &&& d.mouse_hook_panics == c.mouse_hook_panics
            &&& d.focus_event_panics == c.focus_event_panics
            &&& d.message_window_panics == c.message_window_panics
            &&& d.getmessage_errors_main == c.getmessage_errors_main
            &&& d.getmessage_errors_msg_window == c.getmessage_errors_msg_window
            &&& d.wm_quit_received == c.wm_quit_received
            &&& d.wm_close_received == c.wm_close_received
            &&& d.sendmsg_timeouts == c.sendmsg_timeouts
            &&& d.sendmsg_success == c.sendmsg_success
        }),
{
}

/// The peak never goes down, and right after a spawn it is at least the
/// number of threads in flight.
pub proof fn lemma_peak_monotone(c: DebugCounters, kind: ThreadKind)
    requires
        c.threads_in_flight < u32::MAX,
    ensures
        after_spawn(c, kind).thread_peak >= c.thread_peak,
        after_spawn(c, kind).thread_peak >= after_spawn(c, kind).threads_in_flight,
        after_done(c).thread_peak == c.thread_peak,
{
}

proof fn lemma_take_drop_last(events: Seq<TrackEvent>, i: int)
    requires
        events.len() > 0,
        0 <= i < events.len(),
    ensures
        events.take(i) == events.drop_last().take(i),
{
    assert(events.take(i) =~= events.drop_last().take(i));
}

/// Counting law for a run of well-reported events starting from `c`: the
/// in-flight count is the start plus the spawns minus the completions, each
/// kind's spawn counter grew by that kind's spawns, and the counters of
/// panics, message-loop errors and messages are unchanged. The peak never
/// drops below the start peak, is the start peak or one of the in-flight
/// counts along the way, and is at least the in-flight count right after
/// every spawn; when the start peak is at least the start in-flight count, it
/// is at least every in-flight count along the way.
pub proof fn lemma_replay_counts(c: DebugCounters, events: Seq<TrackEvent>)
    requires
        well_reported(c, events),
    ensures
        replay(c, events).threads_in_flight == in_flight_after(c.threads_in_flight, events),
        forall|kind: ThreadKind| #[trigger] spawned_of(replay(c, events), kind) == spawned_of(c, kind) + kind_spawn_count(events, kind),
        forall|i: int| 0 < i <= events.len() && events[i - 1] is Spawned ==> replay(c, events).thread_peak >= in_flight_after(c.threads_in_flight, #[trigger] events.take(i)),
        c.thread_peak >= c.threads_in_flight ==> forall|i: int| 0 <= i <= events.len() ==> replay(c, events).thread_peak >= in_flight_after(c.threads_in_flight, #[trigger] events.take(i)),
        replay(c, events).thread_peak >= c.thread_peak,
        replay(c, events).thread_peak == c.thread_peak || exists|i: int| 0 < i <= events.len() && replay(c, events).thread_peak == in_flight_after(c.threads_in_flight, #[trigger] events.take(i)),
        replay(c, events).keyboard_hook_panics == c.keyboard_hook_panics,
        replay(c, events).mouse_hook_panics == c.mouse_hook_panics,
        replay(c, events).focus_event_panics == c.focus_event_panics,
        replay(c, events).message_window_panics == c.message_window_panics,
        replay(c, events).getmessage_errors_main == c.getmessage_errors_main,
        replay(c, events).getmessage_errors_msg_window == c.getmessage_errors_msg_window,
        replay(c, events).wm_quit_received == c.wm_quit_received,
        replay(c, events).wm_close_received == c.wm_close_received,
        replay(c, events).sendmsg_timeouts == c.sendmsg_timeouts,
        replay(c, events).sendmsg_success == c.sendmsg_success,
    decreases events.len(),
{
    let n = events.len() as int;
    assert(events.take(n) =~= events);
    if n == 0 {
        assert(events.take(0) =~= events);
    } else {
        let prev = events.drop_last();
        assert(prev.take(n - 1) =~= prev);
        assert forall|i: int| 0 <= i <= prev.len() implies 0 <= #[trigger] in_flight_after(
            c.threads_in_flight,
            prev.take(i),
        ) <= u32::MAX by {
            lemma_take_drop_last(events, i);
            assert(0 <= in_flight_after(c.threads_in_flight, events.take(i)) <= u32::MAX);
        }
        assert forall|kind: ThreadKind| spawned_of(c, kind) + #[trigger] kind_spawn_count(prev, kind) <= u64::MAX by {
            assert(spawned_of(c, kind) + kind_spawn_count(events, kind) <= u64::MAX);
        }
        lemma_replay_counts(c, prev);
        let r = replay(c, prev);
        assert(0 <= in_flight_after(c.threads_in_flight, events.take(n)) <= u32::MAX);
        assert(0 <= in_flight_after(c.threads_in_flight, prev.take(n - 1)) <= u32::MAX);
        assert forall|i: int| 0 < i <= n && events[i - 1] is Spawned implies replay(c, events).thread_peak
            >= #[trigger] in_flight_after(c.threads_in_flight, events.take(i)) by {
            if i < n {
                lemma_take_drop_last(events, i);
                assert(prev[i - 1] == events[i - 1]);
            }
        }
        if c.thread_peak >= c.threads_in_flight {
            assert(r.thread_peak >= in_flight_after(c.threads_in_flight, prev.take(n - 1)));
            assert forall|i: int| 0 <= i <= n implies replay(c, events).thread_peak
                >= #[trigger] in_flight_after(c.threads_in_flight, events.take(i)) by {
                if i < n {
                    lemma_take_drop_last(events, i);
                }
            }
        }
        assert forall|i: int| 0 <= i < n implies #[trigger] events.take(i) == prev.take(i) by {
            lemma_take_drop_last(events, i);
        }
        assert forall|kind: ThreadKind| #[trigger] spawned_of(replay(c, events), kind) == spawned_of(c, kind) + kind_spawn_count(events, kind) by {
            assert(spawned_of(r, kind) == spawned_of(c, kind) + kind_spawn_count(prev, kind));
            assert(spawned_of(c, kind) + kind_spawn_count(events, kind) <= u64::MAX);
        }
        let p = replay(c, events).thread_peak;
        if p != c.thread_peak {
            if p == r.thread_peak {
                let j = choose|j: int| 0 < j <= prev.len() && r.thread_peak == in_flight_after(c.threads_in_flight, #[trigger] prev.take(j));
                assert(events.take(j) == prev.take(j));
                assert(p == in_flight_after(c.threads_in_flight, events.take(j)));
            } else {
                assert(p == in_flight_after(c.threads_in_flight, events.take(n)));
            }
        }
    }
}

} // verus!
