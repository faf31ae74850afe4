//! The application state and the main loop's transition function.
use vstd::prelude::*;

use crate::event::{Event, KeyCode, KeyEvent, KeyEventKind, PROGRESS_FULL};

verus! {

/// The gauge's fill color, from a fixed set of three.
#[derive(Clone, Copy, Debug, PartialEq, Eq, Structural)]
pub enum GaugeColor {
    Green,
    Red,
    Blue,
}

impl GaugeColor {
    /// The cyclic successor: Green, then Red, then Blue, then Green again.
    pub open spec fn successor(self) -> GaugeColor {
        match self {
            GaugeColor::Green => GaugeColor::Red,
            GaugeColor::Red => GaugeColor::Blue,
            GaugeColor::Blue => GaugeColor::Green,
        }
    }

    pub fn next(self) -> (r: GaugeColor)
        ensures
            r == self.successor(),
    {
        match self {
            GaugeColor::Green => GaugeColor::Red,
            GaugeColor::Red => GaugeColor::Blue,
            GaugeColor::Blue => GaugeColor::Green,
        }
    }
}

/// The state that the main loop owns: whether the user asked to quit, the
/// gauge's color, and the progress shown, in hundredths.
#[derive(Clone, Copy, Debug, PartialEq, Eq, Structural)]
pub struct App {
    pub exit: bool,
    pub progress_bar_color: GaugeColor,
    pub background_progress: u8,
}

/// The key that quits.
pub const QUIT_KEY: char = 'q';

/// The key that advances the gauge's color.
pub const COLOR_KEY: char = 'c';

/// A press of the character `c`, as an event.
pub open spec fn press(c: char) -> Event {
    Event::Input(KeyEvent { code: KeyCode::Char(c), kind: KeyEventKind::Press })
}

impl App {
    /// The progress shown lies within 0 ..= `PROGRESS_FULL` hundredths.
    pub open spec fn wf(self) -> bool {
        self.background_progress <= PROGRESS_FULL
    }

    /// The state after one key event.
    pub open spec fn key_step(self, key: KeyEvent) -> App {
        if key.is_press_of(QUIT_KEY) {
            App { exit: true, ..self }
        } else if key.is_press_of(COLOR_KEY) {
            App { progress_bar_color: self.progress_bar_color.successor(), ..self }
        } else {
            self
        }
    }

    /// The state after one event: the transition function.
    pub open spec fn step(self, event: Event) -> App {
        match event {
            Event::Input(key) => self.key_step(key),
            Event::Progress(p) => App { background_progress: p, ..self },
        }
    }

    /// Consumes `events` from the front as the main loop does: while the
    /// state is running, take the next event and apply it; each consumed
    /// event is followed by one render. The result is the final state and
    /// the number of events consumed, which is the number of renders.
    pub open spec fn after_events(self, events: Seq<Event>) -> (App, nat)
        decreases events.len(),
    {
        if self.exit || events.len() == 0 {
            (self, 0)
        } else {
            let (last, n) = self.step(events[0]).after_events(events.drop_first());
            (last, n + 1)
        }
    }

    /// The state at startup: running, green, no progress.
    pub fn new() -> (r: App)
        ensures
            r == (App { exit: false, progress_bar_color: GaugeColor::Green, background_progress: 0 }),
            r.wf(),
    {
        App { exit: false, progress_bar_color: GaugeColor::Green, background_progress: 0 }
    }

    /// Applies one key event: a press of `q` quits, a press of `c` advances
    /// the color, and any other key, or any kind but a press, changes nothing.
    pub fn handle_key_event(&mut self, key_event: KeyEvent)
        ensures
            *final(self) == old(self).key_step(key_event),
            key_event.kind != KeyEventKind::Press ==> *final(self) == *old(self),
    {
        if key_event.pressed(QUIT_KEY) {
            self.exit = true;
        } else if key_event.pressed(COLOR_KEY) {
            self.progress_bar_color = self.progress_bar_color.next();
        }
    }

    /// Applies one event of the merged stream.
    pub fn handle_event(&mut self, event: Event)
        ensures
            *final(self) == old(self).step(event),
            old(self).wf() && event.wf() ==> final(self).wf(),
    {
        match event {
            Event::Input(key_event) => self.handle_key_event(key_event),
            Event::Progress(progress) => self.background_progress = progress,
        }
    }

    /// Whether the main loop receives another event.
    pub fn is_running(&self) -> (r: bool)
        ensures
            r == !self.exit,
    {
        !self.exit
    }

    /// Runs the main loop over a queue of events that have already arrived:
    /// consumes them in order until the state has exited or the queue is
    /// empty, and returns how many were consumed (one render each). Events
    /// queued after a quit are left unconsumed.
    pub fn consume(&mut self, events: &Vec<Event>) -> (consumed: usize)
        ensures
            (*final(self), consumed as nat) == old(self).after_events(events@),
            consumed <= events@.len(),
    {
        let ghost start = *self;
        let mut i: usize = 0;
        proof {
            assert(events@.skip(0) =~= events@);
        }
        while i < events.len() && self.is_running()
            invariant
                i <= events@.len(),
                start.after_events(events@) == (
                    self.after_events(events@.skip(i as int)).0,
                    (self.after_events(events@.skip(i as int)).1 + i) as nat,
                ),
            decreases events@.len() - i,
        {
            proof {
                assert(events@.skip(i as int).drop_first() =~= events@.skip(i + 1));
            }
            self.handle_event(events[i]);
            i = i + 1;
        }
        proof {
            if i == events@.len() {
                assert(events@.skip(i as int).len() == 0);
            }
        }
        i
    }
}

/// Whether every event of `events` is a progress event.
pub open spec fn all_progress(events: Seq<Event>) -> bool {
    forall|i: int| 0 <= i < events.len() ==> #[trigger] events[i] is Progress
}

/// A running state that consumes only progress events consumes them all,
/// ends with the last value as its progress, and keeps everything else.
proof fn lemma_progress_only(s: App, events: Seq<Event>)
    requires
        !s.exit,
        all_progress(events),
    ensures
        s.after_events(events).1 == events.len(),
        s.after_events(events).0 == (if events.len() == 0 {
            s
        } else {
            App { background_progress: events.last()->Progress_0, ..s }
        }),
    decreases events.len(),
{
    if events.len() > 0 {
        let rest = events.drop_first();
        assert(all_progress(rest)) by {
            assert forall|i: int| 0 <= i < rest.len() implies #[trigger] rest[i] is Progress by {
                assert(rest[i] == events[i + 1]);
            }
        }
        assert(events[0] is Progress);
        lemma_progress_only(s.step(events[0]), rest);
    }
}

/// While running, a stream of progress events is consumed whole and in
/// order: after the first `k` of them the progress shown is the `k`-th
/// value, so at the end it is the last value; nothing else changes.
pub proof fn lemma_progress_tracks_latest(s: App, events: Seq<Event>)
    requires
        !s.exit,
        all_progress(events),
    ensures
        s.after_events(events).1 == events.len(),
        forall|k: int|
            1 <= k <= events.len() ==> (#[trigger] s.after_events(events.take(k))).0
                == (App { background_progress: events[k - 1]->Progress_0, ..s }),
        events.len() > 0 ==> s.after_events(events).0.background_progress
            == events.last()->Progress_0,
{
    lemma_progress_only(s, events);
    assert forall|k: int| 1 <= k <= events.len() implies (#[trigger] s.after_events(
        events.take(k),
    )).0 == (App { background_progress: events[k - 1]->Progress_0, ..s }) by {
        let pre = events.take(k);
        assert forall|i: int| 0 <= i < pre.len() implies #[trigger] pre[i] is Progress by {
            assert(pre[i] == events[i]);
        }
        lemma_progress_only(s, pre);
    }
}

/// Three presses of the color key, from any state, give back that state:
/// the color cycle has length three.
pub proof fn lemma_color_cycle(s: App)
    ensures
        s.step(press(COLOR_KEY)).step(press(COLOR_KEY)).step(press(COLOR_KEY)) == s,
        s.step(press(COLOR_KEY)).progress_bar_color != s.progress_bar_color,
        s.step(press(COLOR_KEY)).step(press(COLOR_KEY)).progress_bar_color
            != s.progress_bar_color,
{
}

/// A press of the quit key ends the loop: a running state consumes it and
/// nothing queued after it, and ends exited with all else unchanged; an
/// exited state consumes nothing at all.
pub proof fn lemma_quit_stops(s: App, rest: Seq<Event>)
    ensures
        !s.exit ==> s.after_events(seq![press(QUIT_KEY)] + rest) == (App { exit: true, ..s }, 1nat),
        s.exit ==> s.after_events(seq![press(QUIT_KEY)] + rest) == (s, 0nat),
{
    let events = seq![press(QUIT_KEY)] + rest;
    assert(events[0] == press(QUIT_KEY));
    if !s.exit {
        let after = s.step(events[0]);
        assert(after.exit);
        assert(after.after_events(events.drop_first()) == (after, 0nat));
    }
}

/// An input event that is not a press leaves the state as it was, whatever
/// its key.
pub proof fn lemma_non_press_inert(s: App, key: KeyEvent)
    requires
        key.kind != KeyEventKind::Press,
    ensures
        s.step(Event::Input(key)) == s,
        s.step(Event::Input(key)).progress_bar_color == s.progress_bar_color,
        s.step(Event::Input(key)).exit == s.exit,
{
}

} // verus!
