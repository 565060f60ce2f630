//! The far end of a socket writer: it must hear from the writer, data or
//! keepalive, before it has been silent for [`MAX_SILENCE_MS`].
//!
//! The clock is `std::time::Instant`, which Verus knows nothing about. What
//! the clock says is therefore read in [`Receiver::send_data`] and
//! [`Receiver::keepalive`] and handed, as a plain number, to
//! [`Receiver::record_data`] and [`Receiver::record_keepalive`], which decide
//! and are verified for every reading.

use std::time::{Duration, Instant};
use vstd::prelude::*;

verus! {

/// A receiver that has been silent for this many milliseconds or more has
/// given up on its writer.
pub const MAX_SILENCE_MS: u128 = 15;

/// `std::time::Instant`, carried as an opaque value.
#[verifier::external_type_specification]
#[verifier::external_body]
pub struct ExInstant(Instant);

/// `Instant::now` reads the clock: nothing is claimed of what it returns.
pub assume_specification[ Instant::now ]() -> Instant;

/// `Instant::elapsed` reads the clock: nothing is claimed of what it returns.
pub assume_specification[ Instant::elapsed ](instant: &Instant) -> Duration;

/// `Duration::as_millis`: nothing is claimed of what it returns.
pub assume_specification[ Duration::as_millis ](duration: &Duration) -> u128;

/// The writer came too late: the receiver had been silent for `silent_ms`
/// milliseconds already.
#[derive(Clone, Copy, Debug, PartialEq, Eq, Structural)]
pub struct TimedOut {
    pub silent_ms: u128,
}

/// The receiving end: when it last heard from the writer, and the last
/// value it was sent.
pub struct Receiver {
    last_accessed: Instant,
    last_data_value: usize,
}

impl Receiver {
    /// The instant at which the receiver last heard from the writer.
    pub closed spec fn last_accessed(&self) -> Instant {
        self.last_accessed
    }

    /// The last value of the last batch that the receiver accepted; zero
    /// before the first batch.
    pub closed spec fn last_data_value(&self) -> usize {
        self.last_data_value
    }

    /// A receiver that has just been heard from and has no data yet.
    pub fn new() -> (receiver: Self)
        ensures
            receiver.last_data_value() == 0,
    {
        Self { last_accessed: Instant::now(), last_data_value: 0 }
    }

    /// The last value of the last batch that the receiver accepted.
    pub fn last_value(&self) -> (value: usize)
        ensures
            value == self.last_data_value(),
    {
        self.last_data_value
    }

    /// For how many milliseconds the receiver has been silent, by the
    /// clock.
    pub fn silent_ms(&self) -> u128 {
        self.last_accessed.elapsed().as_millis()
    }

    /// Takes a batch that arrives at `now`, after the receiver has been
    /// silent for `silent_ms` milliseconds.
    ///
    /// In time, the batch is accepted: the receiver was last heard from at
    /// `now` and remembers the last value of the batch. Too late, it is
    /// refused and the receiver stays as it was.
    pub fn record_data(&mut self, silent_ms: u128, now: Instant, data: &[usize]) -> (taken: Result<
        (),
        TimedOut,
    >)
        requires
            data@.len() > 0,
        ensures
            taken.is_ok() == (silent_ms < MAX_SILENCE_MS),
            taken.is_ok() ==> final(self).last_accessed() == now && final(self).last_data_value()
                == data@.last(),
            taken.is_err() ==> *final(self) == *old(self) && taken == Err::<(), TimedOut>(
                TimedOut { silent_ms },
            ),
    {
        if silent_ms >= MAX_SILENCE_MS {
            return Err(TimedOut { silent_ms });
        }
        self.last_accessed = now;
        self.last_data_value = data[data.len() - 1];
        Ok(())
    }

    /// Takes a keepalive that arrives at `now`, after the receiver has been
    /// silent for `silent_ms` milliseconds.
    ///
    /// In time, the receiver was last heard from at `now`; too late, it
    /// stays as it was. The data it remembers is not touched either way.
    pub fn record_keepalive(&mut self, silent_ms: u128, now: Instant) -> (taken: Result<
        (),
        TimedOut,
    >)
        ensures
            taken.is_ok() == (silent_ms < MAX_SILENCE_MS),
            taken.is_ok() ==> final(self).last_accessed() == now && final(self).last_data_value()
                == old(self).last_data_value(),
            taken.is_err() ==> *final(self) == *old(self) && taken == Err::<(), TimedOut>(
                TimedOut { silent_ms },
            ),
    {
        if silent_ms >= MAX_SILENCE_MS {
            return Err(TimedOut { silent_ms });
        }
        self.last_accessed = now;
        Ok(())
    }

    /// Sends a batch of data to the receiver.
    ///
    /// Whether the batch comes in time is for the clock to say. Accepted, the
    /// receiver remembers the last value of the batch; refused, for a silence
    /// of [`MAX_SILENCE_MS`] or more, the receiver stays as it was.
    pub fn send_data(&mut self, data: &[usize]) -> (sent: Result<(), TimedOut>)
        requires
            data@.len() > 0,
        ensures
            match sent {
                Ok(()) => final(self).last_data_value() == data@.last(),
                Err(late) => late.silent_ms >= MAX_SILENCE_MS && *final(self) == *old(self),
            },
    {
        let silent_ms = self.silent_ms();
        self.record_data(silent_ms, Instant::now(), data)
    }

    /// Tells the receiver that the writer is alive though it has no data.
    ///
    /// Whether the keepalive comes in time is for the clock to say. The data
    /// that the receiver remembers is not touched; refused, for a silence of
    /// [`MAX_SILENCE_MS`] or more, the receiver stays as it was.
    pub fn keepalive(&mut self) -> (kept: Result<(), TimedOut>)
        ensures
            final(self).last_data_value() == old(self).last_data_value(),
            kept matches Err(late) ==> late.silent_ms >= MAX_SILENCE_MS && *final(self) == *old(self),
    {
        let silent_ms = self.silent_ms();
        self.record_keepalive(silent_ms, Instant::now())
    }
}

} // verus!
