//! Events that reach the main loop: key presses and progress ticks.
use vstd::prelude::*;

verus! {

/// The key that an input event is about: a printable character, or any
/// other key, which the dashboard never reacts to.
#[derive(Clone, Copy, Debug, PartialEq, Eq, Structural)]
pub enum KeyCode {
    Char(char),
    Other,
}

/// The phase of a key's transition.
#[derive(Clone, Copy, Debug, PartialEq, Eq, Structural)]
pub enum KeyEventKind {
    Press,
    Repeat,
    Release,
}

/// One decoded keyboard event.
#[derive(Clone, Copy, Debug, PartialEq, Eq, Structural)]
pub struct KeyEvent {
    pub code: KeyCode,
    pub kind: KeyEventKind,
}

impl KeyEvent {
    pub fn new(code: KeyCode, kind: KeyEventKind) -> (r: KeyEvent)
        ensures
            r.code == code,
            r.kind == kind,
    {
        KeyEvent { code, kind }
    }

    /// Whether this is a press of the character `c`.
    pub open spec fn is_press_of(self, c: char) -> bool {
        self.kind == KeyEventKind::Press && self.code == KeyCode::Char(c)
    }

    pub fn pressed(&self, c: char) -> (r: bool)
        ensures
            r == self.is_press_of(c),
    {
        self.kind == KeyEventKind::Press && self.code == KeyCode::Char(c)
    }
}

/// The largest progress value, in hundredths: the work is complete.
pub const PROGRESS_FULL: u8 = 100;

/// An event of the merged stream. `Progress` carries the completed share of
/// the background work in hundredths, from 0 to `PROGRESS_FULL`.
#[derive(Clone, Copy, Debug, PartialEq, Eq, Structural)]
pub enum Event {
    Input(KeyEvent),
    Progress(u8),
}

impl Event {
    /// A progress value stays within 0 ..= `PROGRESS_FULL` hundredths.
    pub open spec fn wf(self) -> bool {
        self matches Event::Progress(p) ==> p <= PROGRESS_FULL
    }
}

} // verus!
