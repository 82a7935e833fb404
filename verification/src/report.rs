//! The diagnostic snapshot and the sanity warnings, rendered as text lines.
use vstd::prelude::*;
use crate::counters::DebugCounters;
use crate::text::{decimal, push_decimal, read_decimal, lemma_read_decimal};

verus! {

/// A labelled value line: the label followed by the value in decimal.
pub open spec fn labelled(label: Seq<char>, value: nat) -> Seq<char> {
    label + decimal(value)
}

/// The lines of a diagnostic snapshot of `c`, in the order they are printed.
pub open spec fn dump_lines(c: DebugCounters) -> Seq<Seq<char>> {
    seq![
        "=== Capsense Debug Snapshot ==="@,
        labelled("Hook threads spawned:   "@, c.hook_thread_spawned as nat),
        labelled("Focus sync spawned:     "@, c.focus_sync_thread_spawned as nat),
        labelled("Mouse sync spawned:     "@, c.mouse_sync_thread_spawned as nat),
        labelled("Threads in flight:      "@, c.threads_in_flight as nat),
        labelled("Thread peak:            "@, c.thread_peak as nat),
        "---"@,
        labelled("Kbd hook panics:        "@, c.keyboard_hook_panics as nat),
        labelled("Mouse hook panics:      "@, c.mouse_hook_panics as nat),
        labelled("Focus event panics:     "@, c.focus_event_panics as nat),
        labelled("Msg window panics:      "@, c.message_window_panics as nat),
        "---"@,
        labelled("GetMessage errors (main):     "@, c.getmessage_errors_main as nat),
        labelled("GetMessage errors (msg win):  "@, c.getmessage_errors_msg_window as nat),
        labelled("WM_QUIT received:             "@, c.wm_quit_received as nat),
        labelled("WM_CLOSE received:            "@, c.wm_close_received as nat),
        "---"@,
        labelled("SendMsg timeouts:       "@, c.sendmsg_timeouts as nat),
        labelled("SendMsg success:        "@, c.sendmsg_success as nat),
        "==============================="@
    ]
}

/// Above this many threads in flight the sanity check warns of a leak.
pub const IN_FLIGHT_WARN_LIMIT: u32 = 50;

/// Above this many message timeouts the sanity check warns of a hung window.
pub const TIMEOUT_WARN_LIMIT: u64 = 100;

/// The callback panics that the sanity check counts: keyboard hook, mouse
/// hook and focus event (message-window panics are not counted).
pub open spec fn counted_panics(c: DebugCounters) -> int {
    c.keyboard_hook_panics + c.mouse_hook_panics + c.focus_event_panics
}

/// The warning lines of the sanity check, in the order they are printed: one
/// for more than `IN_FLIGHT_WARN_LIMIT` threads in flight, one for any
/// counted panic, one for more than `TIMEOUT_WARN_LIMIT` message timeouts.
pub open spec fn sanity_warnings(c: DebugCounters) -> Seq<Seq<char>> {
    let leak: Seq<Seq<char>> = if c.threads_in_flight > IN_FLIGHT_WARN_LIMIT {
        seq![
            "WARNING: "@ + decimal(c.threads_in_flight as nat) + " threads in flight (peak: "@
                + decimal(c.thread_peak as nat) + ") — possible thread leak"@
        ]
    } else {
        seq![]
    };
    let panics: Seq<Seq<char>> = if counted_panics(c) > 0 {
        seq!["WARNING: "@ + decimal(counted_panics(c) as nat) + " hook callback panics caught"@]
    } else {
        seq![]
    };
    let hung: Seq<Seq<char>> = if c.sendmsg_timeouts > TIMEOUT_WARN_LIMIT {
        seq![
            "WARNING: "@ + decimal(c.sendmsg_timeouts as nat)
                + " SendMessage timeouts — IME window may be hung"@
        ]
    } else {
        seq![]
    };
    leak + panics + hung
}

/// A new string holding `label` followed by `value` in decimal.
fn labelled_line(label: &str, value: u64) -> (s: String)
    ensures
        s@ == labelled(label@, value as nat),
{
    let mut s = String::from_str(label);
    push_decimal(&mut s, value);
    s
}

/// The lines of a diagnostic snapshot of all counters, in print order.
pub fn dbg_dump(counters: &DebugCounters) -> (lines: Vec<String>)
    ensures
        lines.deep_view() == dump_lines(*counters),
{
    let c = counters;
    let mut lines: Vec<String> = Vec::new();
    lines.push(String::from_str("=== Capsense Debug Snapshot ==="));
    lines.push(labelled_line("Hook threads spawned:   ", c.hook_thread_spawned));
    lines.push(labelled_line("Focus sync spawned:     ", c.focus_sync_thread_spawned));
    lines.push(labelled_line("Mouse sync spawned:     ", c.mouse_sync_thread_spawned));
    lines.push(labelled_line("Threads in flight:      ", c.threads_in_flight as u64));
    lines.push(labelled_line("Thread peak:            ", c.thread_peak));
    lines.push(String::from_str("---"));
    lines.push(labelled_line("Kbd hook panics:        ", c.keyboard_hook_panics));
    lines.push(labelled_line("Mouse hook panics:      ", c.mouse_hook_panics));
    lines.push(labelled_line("Focus event panics:     ", c.focus_event_panics));
    lines.push(labelled_line("Msg window panics:      ", c.message_window_panics));
    lines.push(String::from_str("---"));
    lines.push(labelled_line("GetMessage errors (main):     ", c.getmessage_errors_main));
    lines.push(labelled_line("GetMessage errors (msg win):  ", c.getmessage_errors_msg_window));
    lines.push(labelled_line("WM_QUIT received:             ", c.wm_quit_received));
    lines.push(labelled_line("WM_CLOSE received:            ", c.wm_close_received));
    lines.push(String::from_str("---"));
    lines.push(labelled_line("SendMsg timeouts:       ", c.sendmsg_timeouts));
    lines.push(labelled_line("SendMsg success:        ", c.sendmsg_success));
    lines.push(String::from_str("==============================="));
    assert(lines.deep_view() =~= dump_lines(*counters));
    lines
}

/// The warnings for counters past their safe thresholds, in print order.
/// Meant to be called periodically (e.g., every N key presses).
pub fn dbg_check_sanity(counters: &DebugCounters) -> (warnings: Vec<String>)
    requires
        counted_panics(*counters) <= u64::MAX,
    ensures
        warnings.deep_view() == sanity_warnings(*counters),
{
    let inflight: u32 = counters.threads_in_flight;
    let peak: u64 = counters.thread_peak;
    let panics: u64 = counters.keyboard_hook_panics + counters.mouse_hook_panics
        + counters.focus_event_panics;
    let timeouts: u64 = counters.sendmsg_timeouts;
    let mut warnings: Vec<String> = Vec::new();
    if inflight > IN_FLIGHT_WARN_LIMIT {
        let mut w = String::from_str("WARNING: ");
        push_decimal(&mut w, inflight as u64);
        w.append(" threads in flight (peak: ");
        push_decimal(&mut w, peak);
        w.append(") — possible thread leak");
        warnings.push(w);
    }
    if panics > 0 {
        let mut w = String::from_str("WARNING: ");
        push_decimal(&mut w, panics);
        w.append(" hook callback panics caught");
        warnings.push(w);
    }
    if timeouts > TIMEOUT_WARN_LIMIT {
        let mut w = String::from_str("WARNING: ");
        push_decimal(&mut w, timeouts);
        w.append(" SendMessage timeouts — IME window may be hung");
        warnings.push(w);
    }
    assert(warnings.deep_view() =~= sanity_warnings(*counters));
    warnings
}

/// `line` is `label` followed by text that reads back, in decimal, as `value`.
pub open spec fn reads_back(line: Seq<char>, label: Seq<char>, value: nat) -> bool {
    &&& line.len() >= label.len()
    &&& line.take(label.len() as int) == label
    &&& read_decimal(line.skip(label.len() as int)) == value
}

proof fn lemma_labelled_reads_back(label: Seq<char>, value: nat)
    ensures
        reads_back(labelled(label, value), label, value),
{
    lemma_read_decimal(value);
    assert(labelled(label, value).take(label.len() as int) =~= label);
    assert(labelled(label, value).skip(label.len() as int) =~= decimal(value));
}

/// Reading the snapshot back: it has twenty lines, framed by a title line,
/// separator lines and a closing line, and every value line is its label
/// followed by the full value of its counter in decimal, so each counter is
/// recovered exactly from its line.
pub proof fn lemma_dump_reads_back(c: DebugCounters)
    ensures
        dump_lines(c).len() == 20,
        dump_lines(c)[0] == "=== Capsense Debug Snapshot ==="@,
        dump_lines(c)[6] == "---"@,
        dump_lines(c)[11] == "---"@,
        dump_lines(c)[16] == "---"@,
        dump_lines(c)[19] == "==============================="@,
        reads_back(dump_lines(c)[1], "Hook threads spawned:   "@, c.hook_thread_spawned as nat),
        reads_back(dump_lines(c)[2], "Focus sync spawned:     "@, c.focus_sync_thread_spawned as nat),
        reads_back(dump_lines(c)[3], "Mouse sync spawned:     "@, c.mouse_sync_thread_spawned as nat),
        reads_back(dump_lines(c)[4], "Threads in flight:      "@, c.threads_in_flight as nat),
        reads_back(dump_lines(c)[5], "Thread peak:            "@, c.thread_peak as nat),
        reads_back(dump_lines(c)[7], "Kbd hook panics:        "@, c.keyboard_hook_panics as nat),
        reads_back(dump_lines(c)[8], "Mouse hook panics:      "@, c.mouse_hook_panics as nat),
        reads_back(dump_lines(c)[9], "Focus event panics:     "@, c.focus_event_panics as nat),
        reads_back(dump_lines(c)[10], "Msg window panics:      "@, c.message_window_panics as nat),
        reads_back(dump_lines(c)[12], "GetMessage errors (main):     "@, c.getmessage_errors_main as nat),
        reads_back(dump_lines(c)[13], "GetMessage errors (msg win):  "@, c.getmessage_errors_msg_window as nat),
        reads_back(dump_lines(c)[14], "WM_QUIT received:             "@, c.wm_quit_received as nat),
        reads_back(dump_lines(c)[15], "WM_CLOSE received:            "@, c.wm_close_received as nat),
        reads_back(dump_lines(c)[17], "SendMsg timeouts:       "@, c.sendmsg_timeouts as nat),
        reads_back(dump_lines(c)[18], "SendMsg success:        "@, c.sendmsg_success as nat),
{
    lemma_labelled_reads_back("Hook threads spawned:   "@, c.hook_thread_spawned as nat);
    lemma_labelled_reads_back("Focus sync spawned:     "@, c.focus_sync_thread_spawned as nat);
    lemma_labelled_reads_back("Mouse sync spawned:     "@, c.mouse_sync_thread_spawned as nat);
    lemma_labelled_reads_back("Threads in flight:      "@, c.threads_in_flight as nat);
    lemma_labelled_reads_back("Thread peak:            "@, c.thread_peak as nat);
    lemma_labelled_reads_back("Kbd hook panics:        "@, c.keyboard_hook_panics as nat);
    lemma_labelled_reads_back("Mouse hook panics:      "@, c.mouse_hook_panics as nat);
    lemma_labelled_reads_back("Focus event panics:     "@, c.focus_event_panics as nat);
    lemma_labelled_reads_back("Msg window panics:      "@, c.message_window_panics as nat);
    lemma_labelled_reads_back("GetMessage errors (main):     "@, c.getmessage_errors_main as nat);
    lemma_labelled_reads_back("GetMessage errors (msg win):  "@, c.getmessage_errors_msg_window as nat);
    lemma_labelled_reads_back("WM_QUIT received:             "@, c.wm_quit_received as nat);
    lemma_labelled_reads_back("WM_CLOSE received:            "@, c.wm_close_received as nat);
    lemma_labelled_reads_back("SendMsg timeouts:       "@, c.sendmsg_timeouts as nat);
    lemma_labelled_reads_back("SendMsg success:        "@, c.sendmsg_success as nat);
}

/// Two counter sets give the same snapshot only when they are equal.
pub proof fn lemma_dump_determines_counters(c1: DebugCounters, c2: DebugCounters)
    ensures
        dump_lines(c1) == dump_lines(c2) <==> c1 == c2,
{
    lemma_dump_reads_back(c1);
    lemma_dump_reads_back(c2);
}

/// The leak warning: "WARNING: <in flight> threads in flight (peak: <peak>)
/// — possible thread leak".
pub open spec fn leak_warning(in_flight: nat, peak: nat) -> Seq<char> {
    "WARNING: "@ + decimal(in_flight) + " threads in flight (peak: "@ + decimal(peak)
        + ") — possible thread leak"@
}

/// The panic warning: "WARNING: <count> hook callback panics caught".
pub open spec fn panic_warning(count: nat) -> Seq<char> {
    "WARNING: "@ + decimal(count) + " hook callback panics caught"@
}

/// The hung-window warning: "WARNING: <count> SendMessage timeouts — IME
/// window may be hung".
pub open spec fn hung_warning(count: nat) -> Seq<char> {
    "WARNING: "@ + decimal(count) + " SendMessage timeouts — IME window may be hung"@
}

proof fn lemma_warning_endings(a: nat, b: nat, n: nat, t: nat)
    ensures
        leak_warning(a, b).last() == 'k',
        panic_warning(n).last() == 't',
        hung_warning(t).last() == 'g',
        leak_warning(a, b).len() > 0,
        panic_warning(n).len() > 0,
        hung_warning(t).len() > 0,
{
    reveal_strlit(") — possible thread leak");
    reveal_strlit(" hook callback panics caught");
    reveal_strlit(" SendMessage timeouts — IME window may be hung");
}

/// What the sanity check warns of, over all counters: a leak warning naming
/// the in-flight count and the peak exactly when more than 50 threads are in
/// flight, whatever the peak; a panic warning naming the sum of keyboard
/// hook, mouse hook and focus event panics exactly when that sum is not
/// zero; a hung-window warning naming the timeouts exactly when there are
/// more than 100; and nothing else. They come in that order: the leak
/// warning first, the hung-window warning last.
pub proof fn lemma_sanity_warnings(c: DebugCounters)
    ensures
        sanity_warnings(c).contains(leak_warning(c.threads_in_flight as nat, c.thread_peak as nat))
            <==> c.threads_in_flight > 50,
        sanity_warnings(c).contains(
            panic_warning((c.keyboard_hook_panics + c.mouse_hook_panics + c.focus_event_panics) as nat),
        ) <==> c.keyboard_hook_panics + c.mouse_hook_panics + c.focus_event_panics > 0,
        sanity_warnings(c).contains(hung_warning(c.sendmsg_timeouts as nat)) <==> c.sendmsg_timeouts > 100,
        sanity_warnings(c).len() == (if c.threads_in_flight > 50 { 1int } else { 0 })
            + (if c.keyboard_hook_panics + c.mouse_hook_panics + c.focus_event_panics > 0 { 1int } else { 0 })
            + (if c.sendmsg_timeouts > 100 { 1int } else { 0 }),
        c.threads_in_flight > 50 ==> sanity_warnings(c)[0] == leak_warning(
            c.threads_in_flight as nat,
            c.thread_peak as nat,
        ),
        c.keyboard_hook_panics + c.mouse_hook_panics + c.focus_event_panics > 0 ==> sanity_warnings(c)[
            if c.threads_in_flight > 50 { 1int } else { 0 }] == panic_warning(
            (c.keyboard_hook_panics + c.mouse_hook_panics + c.focus_event_panics) as nat,
        ),
        c.sendmsg_timeouts > 100 ==> sanity_warnings(c).last() == hung_warning(c.sendmsg_timeouts as nat),
{
    let w = sanity_warnings(c);
    let sum = (c.keyboard_hook_panics + c.mouse_hook_panics + c.focus_event_panics) as nat;
    let lw = leak_warning(c.threads_in_flight as nat, c.thread_peak as nat);
    let pw = panic_warning(sum);
    let hw = hung_warning(c.sendmsg_timeouts as nat);
    lemma_warning_endings(c.threads_in_flight as nat, c.thread_peak as nat, sum, c.sendmsg_timeouts as nat);
    let leak: Seq<Seq<char>> = if c.threads_in_flight > 50 { seq![lw] } else { seq![] };
    let panics: Seq<Seq<char>> = if sum > 0 { seq![pw] } else { seq![] };
    let hung: Seq<Seq<char>> = if c.sendmsg_timeouts > 100 { seq![hw] } else { seq![] };
    assert(w =~= leak + panics + hung);
    assert forall|i: int| 0 <= i < w.len() implies #[trigger] w[i] == lw || w[i] == pw || w[i] == hw by {
        if i < leak.len() {
            assert(w[i] == leak[i]);
        } else if i < leak.len() + panics.len() {
            assert(w[i] == panics[i - leak.len()]);
        } else {
            assert(w[i] == hung[i - leak.len() - panics.len()]);
        }
    }
    if c.threads_in_flight > 50 {
        assert(w[0] == lw);
    } else if w.contains(lw) {
        let i = choose|i: int| 0 <= i < w.len() && w[i] == lw;
        assert(w[i] == pw || w[i] == hw);
    }
    if sum > 0 {
        assert(w[leak.len() as int] == pw);
    } else if w.contains(pw) {
        let i = choose|i: int| 0 <= i < w.len() && w[i] == pw;
        assert(w[i] == lw || w[i] == hw);
    }
    if c.sendmsg_timeouts > 100 {
        assert(w[(leak.len() + panics.len()) as int] == hw);
    } else if w.contains(hw) {
        let i = choose|i: int| 0 <= i < w.len() && w[i] == hw;
        assert(w[i] == lw || w[i] == pw);
    }
}

/// The peak only appears inside the leak warning's text: counters that
/// differ only in their peak get the same number of warnings.
pub proof fn lemma_sanity_ignores_peak(c: DebugCounters, peak: u64)
    ensures
        sanity_warnings(DebugCounters { thread_peak: peak, ..c }).len() == sanity_warnings(c).len(),
{
    lemma_sanity_warnings(c);
    lemma_sanity_warnings(DebugCounters { thread_peak: peak, ..c });
}

} // verus!
