use vstd::prelude::*;

use crate::readiness::ReadinessState;

verus! {

/// True when `needle` occurs in `hay` starting at position `i`.
pub open spec fn match_at(hay: Seq<char>, needle: Seq<char>, i: int) -> bool {
    0 <= i && i + needle.len() <= hay.len() && hay.subrange(i, i + needle.len()) == needle
}

/// True when `needle` occurs somewhere in `hay`.
pub open spec fn contains_seq(hay: Seq<char>, needle: Seq<char>) -> bool {
    exists|i: int| match_at(hay, needle, i)
}

/// Compare `needle` against `hay` at position `at`.
fn str_match_at(hay: &str, needle: &str, at: usize, hay_len: usize, needle_len: usize) -> (r: bool)
    requires
        hay_len == hay@.len(),
        needle_len == needle@.len(),
        at + needle_len <= hay_len,
    ensures
        r == match_at(hay@, needle@, at as int),
{
    let mut j: usize = 0;
    while j < needle_len
        invariant
            hay_len == hay@.len(),
            needle_len == needle@.len(),
            at + needle_len <= hay_len,
            j <= needle_len,
            forall|k: int| 0 <= k < j ==> hay@[at + k] == needle@[k],
        decreases needle_len - j,
    {
        let hc = hay.get_char(at + j);
        let nc = needle.get_char(j);
        if hc != nc {
            proof {
                if match_at(hay@, needle@, at as int) {
                    assert(hay@.subrange(at as int, at + needle@.len())[j as int] == needle@[j as int]);
                }
            }
            return false;
        }
        j += 1;
    }
    proof {
        assert(hay@.subrange(at as int, at + needle@.len()) =~= needle@);
    }
    true
}

/// Whether `hay` contains `needle` as a contiguous substring.
pub fn contains_substring(hay: &str, needle: &str) -> (r: bool)
    ensures
        r == contains_seq(hay@, needle@),
{
    let hay_len = hay.unicode_len();
    let needle_len = needle.unicode_len();
    if needle_len > hay_len {
        proof {
            if contains_seq(hay@, needle@) {
                let i = choose|i: int| match_at(hay@, needle@, i);
            }
        }
        return false;
    }
    if needle_len == 0 {
        proof {
            assert(hay@.subrange(0, 0) =~= needle@);
            assert(match_at(hay@, needle@, 0));
        }
        return true;
    }
    let mut i: usize = 0;
    while i <= hay_len - needle_len
        invariant
            hay_len == hay@.len(),
            needle_len == needle@.len(),
            1 <= needle_len <= hay_len,
            i <= hay_len - needle_len + 1,
            forall|k: int| 0 <= k < i ==> !match_at(hay@, needle@, k),
        decreases hay_len - needle_len + 1 - i,
    {
        if str_match_at(hay, needle, i, hay_len, needle_len) {
            assert(match_at(hay@, needle@, i as int));
            return true;
        }
        i += 1;
    }
    proof {
        if contains_seq(hay@, needle@) {
            let k = choose|k: int| match_at(hay@, needle@, k);
            assert(k <= hay@.len() - needle@.len());
            assert(!match_at(hay@, needle@, k));
        }
    }
    false
}

/// True when the stdout line contains one of the recognized readiness
/// markers.
pub open spec fn line_signals_ready(line: Seq<char>) -> bool {
    ||| contains_seq(line, "Uvicorn running on"@)
    ||| contains_seq(line, "Listening on"@)
    ||| contains_seq(line, "API Docs"@)
}

/// Whether a stdout line carries a readiness marker.
pub fn line_has_ready_marker(line: &str) -> (r: bool)
    ensures
        r == line_signals_ready(line@),
{
    contains_substring(line, "Uvicorn running on") || contains_substring(line, "Listening on")
        || contains_substring(line, "API Docs")
}

/// One event from the backend's multiplexed output stream: a line of standard
/// output, a line of standard error, or the terminal process-exit event with
/// the exit code when one is known.
#[derive(Debug)]
pub enum StreamEvent {
    Stdout(String),
    Stderr(String),
    Terminated(Option<i32>),
}

/// What the monitor asks its caller to do after one event: keep consuming the
/// stream, or exit the monitoring loop.
#[derive(Clone, Copy, PartialEq, Eq, Structural, Debug)]
pub enum MonitorAction {
    Continue,
    Exit,
}

/// True when the event is a stdout line carrying a readiness marker -- the
/// only kind of event that sets the readiness flag.
pub open spec fn event_signals_ready(event: StreamEvent) -> bool {
    match event {
        StreamEvent::Stdout(line) => line_signals_ready(line@),
        _ => false,
    }
}

/// The monitor's events are an instance of the generic monotonic-flag law:
/// the flag after a stream of events, where exactly the marker-carrying
/// stdout lines set it, is set when it started set or some event set it --
/// the same shape `process_events` ensures, so the monitor only ever moves
/// the flag from not ready to ready.
pub proof fn lemma_monitor_events_monotone(init: bool, events: Seq<StreamEvent>)
    ensures
        crate::readiness::ready_after(init, events.map(|i: int, ev: StreamEvent| event_signals_ready(ev)))
            == (init || exists|j: int| 0 <= j < events.len() && event_signals_ready(events[j])),
{
    let sets = events.map(|i: int, ev: StreamEvent| event_signals_ready(ev));
    crate::readiness::lemma_ready_after_closed_form(init, sets);
    if exists|k: int| 0 <= k < sets.len() && sets[k] {
        let k = choose|k: int| 0 <= k < sets.len() && sets[k];
        assert(event_signals_ready(events[k]));
    }
    if exists|j: int| 0 <= j < events.len() && event_signals_ready(events[j]) {
        let j = choose|j: int| 0 <= j < events.len() && event_signals_ready(events[j]);
        assert(sets[j]);
    }
}

/// Watches the backend's output stream for readiness markers and for the end
/// of the stream, and records whether a readiness signal was ever observed.
pub struct OutputMonitor {
    saw_ready_marker: bool,
    stream_ended: bool,
}

impl OutputMonitor {
    /// Whether a readiness marker has been observed on standard output.
    pub closed spec fn spec_saw_ready_marker(self) -> bool {
        self.saw_ready_marker
    }

    /// Whether the terminal process-exit event has been consumed.
    pub closed spec fn spec_stream_ended(self) -> bool {
        self.stream_ended
    }

    /// A fresh monitor: nothing observed yet.
    pub fn new() -> (r: OutputMonitor)
        ensures
            !r.spec_saw_ready_marker(),
            !r.spec_stream_ended(),
    {
        OutputMonitor { saw_ready_marker: false, stream_ended: false }
    }

    /// Consume one stream event. A stdout line with a readiness marker sets
    /// the shared flag immediately; stderr lines change nothing; the terminal
    /// event ends the stream and asks the caller to exit the loop. The flag
    /// only ever moves from not ready to ready.
    pub fn on_event(&mut self, event: &StreamEvent, ready: &mut ReadinessState) -> (action:
        MonitorAction)
        requires
            !old(self).spec_stream_ended(),
        ensures
            final(ready).spec_ready() == (old(ready).spec_ready() || event_signals_ready(*event)),
            final(self).spec_saw_ready_marker() == (old(self).spec_saw_ready_marker()
                || event_signals_ready(*event)),
            final(self).spec_stream_ended() == (*event is Terminated),
            action == (if *event is Terminated {
                MonitorAction::Exit
            } else {
                MonitorAction::Continue
            }),
    {
        match event {
            StreamEvent::Stdout(line) => {
                if line_has_ready_marker(line.as_str()) {
                    self.saw_ready_marker = true;
                    ready.mark_ready();
                }
                MonitorAction::Continue
            },
            StreamEvent::Stderr(_) => MonitorAction::Continue,
            StreamEvent::Terminated(_) => {
                self.stream_ended = true;
                MonitorAction::Exit
            },
        }
    }

    /// Whether the terminal process-exit event has been consumed.
    pub fn has_stream_ended(&self) -> (r: bool)
        ensures
            r == self.spec_stream_ended(),
    {
        self.stream_ended
    }

    /// After the monitoring loop has exited: whether the "no startup
    /// confirmation" warning is due, that is, whether the stream ended without
    /// any readiness marker having been observed.
    pub fn needs_startup_warning(&self) -> (r: bool)
        ensures
            r == !self.spec_saw_ready_marker(),
    {
        !self.saw_ready_marker
    }

    /// Consume a whole recorded stream, stopping after the first terminal
    /// event, as the background monitoring task does. Returns the number of
    /// events consumed. The flag ends up set exactly when it started set or
    /// some consumed stdout line carried a readiness marker.
    pub fn process_events(&mut self, events: &Vec<StreamEvent>, ready: &mut ReadinessState) -> (n:
        usize)
        requires
            !old(self).spec_stream_ended(),
            !old(self).spec_saw_ready_marker(),
        ensures
            n <= events@.len(),
            forall|j: int|
                0 <= j < n ==> ((events@[j] is Terminated) <==> (final(self).spec_stream_ended()
                    && j == n - 1)),
            final(self).spec_stream_ended() ==> n >= 1,
            !final(self).spec_stream_ended() ==> n == events@.len(),
            final(ready).spec_ready() == (old(ready).spec_ready() || exists|j: int|
                0 <= j < n && event_signals_ready(events@[j])),
            final(self).spec_saw_ready_marker() == (exists|j: int|
                0 <= j < n && event_signals_ready(events@[j])),
    {
        let ghost ready_at_entry: ReadinessState = *ready;
        let mut i: usize = 0;
        let mut ended: bool = false;
        while i < events.len() && !ended
            invariant
                i <= events@.len(),
                ended == self.spec_stream_ended(),
                ended ==> i >= 1,
                forall|j: int| 0 <= j < i ==> ((events@[j] is Terminated) <==> (ended && j == i - 1)),
                ready.spec_ready() == (ready_at_entry.spec_ready() || exists|j: int|
                    0 <= j < i && event_signals_ready(events@[j])),
                self.spec_saw_ready_marker() == (exists|j: int|
                    0 <= j < i && event_signals_ready(events@[j])),
                ready_at_entry == *old(ready),
            decreases events@.len() - i,
        {
            let action = self.on_event(&events[i], ready);
            proof {
                if event_signals_ready(events@[i as int]) {
                    assert(0 <= i < i + 1 && event_signals_ready(events@[i as int]));
                }
            }
            i += 1;
            match action {
                MonitorAction::Exit => {
                    ended = true;
                },
                MonitorAction::Continue => {},
            }
        }
        i
    }
}

} // verus!
