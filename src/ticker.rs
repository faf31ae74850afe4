//! The background ticker's decisions: which progress value comes next, and
//! when the run is over. Sending each value and waiting between them is left
//! to the caller.
use vstd::prelude::*;

use crate::event::PROGRESS_FULL;

verus! {

/// The delay between two ticks, in milliseconds.
pub const TICK_INTERVAL_MS: u64 = 100;

/// One run of the ticker: the values 0, 1, ..., `PROGRESS_FULL` hundredths,
/// each once and in increasing order, then nothing more.
pub struct Ticker {
    emitted: u16,
}

impl Ticker {
    #[verifier::type_invariant]
    spec fn inv(self) -> bool {
        self.emitted <= PROGRESS_FULL + 1
    }

    /// How many values this run has produced so far.
    pub closed spec fn emitted(self) -> nat {
        self.emitted as nat
    }

    /// Whether every value of the run has been produced.
    pub open spec fn is_done(self) -> bool {
        self.emitted() > PROGRESS_FULL
    }

    /// A run that has produced nothing yet.
    pub fn new() -> (r: Ticker)
        ensures
            r.emitted() == 0,
    {
        Ticker { emitted: 0 }
    }

    /// The next value of the run, or `None` once all have been produced.
    /// The `k`-th value (from 0) is `k` hundredths.
    pub fn next_tick(&mut self) -> (r: Option<u8>)
        ensures
            old(self).emitted() <= PROGRESS_FULL + 1,
            final(self).emitted() <= PROGRESS_FULL + 1,
            old(self).is_done() ==> r.is_none() && final(self).emitted() == old(self).emitted(),
            !old(self).is_done() ==> r == Some(old(self).emitted() as u8) && final(self).emitted()
                == old(self).emitted() + 1,
    {
        proof {
            use_type_invariant(&*self);
        }
        if self.emitted > PROGRESS_FULL as u16 {
            None
        } else {
            let value = self.emitted as u8;
            self.emitted = self.emitted + 1;
            Some(value)
        }
    }
}

/// Runs a ticker to its end and collects what it produces: exactly
/// `PROGRESS_FULL + 1` values, the `k`-th being `k` hundredths, so strictly
/// increasing, with no gap and no repeat, ending at `PROGRESS_FULL`.
pub fn ticker_values() -> (r: Vec<u8>)
    ensures
        r@.len() == PROGRESS_FULL + 1,
        forall|k: int| 0 <= k < r@.len() ==> r@[k] == k,
{
    let mut ticker = Ticker::new();
    let mut values: Vec<u8> = Vec::new();
    loop
        invariant
            ticker.emitted() <= PROGRESS_FULL + 1,
            values@.len() == ticker.emitted(),
            forall|k: int| 0 <= k < values@.len() ==> values@[k] == k,
        ensures
            values@.len() == PROGRESS_FULL + 1,
            forall|k: int| 0 <= k < values@.len() ==> values@[k] == k,
        decreases PROGRESS_FULL + 1 - ticker.emitted(),
    {
        match ticker.next_tick() {
            Some(value) => values.push(value),
            None => break,
        }
    }
    values
}

} // verus!
