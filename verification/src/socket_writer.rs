//! A writer that collects ticks and flushes them to a [`Receiver`] in
//! batches.
//!
//! A producer pushes ticks into a buffer and wakes the consumer whenever a
//! tick is a multiple of the flush limit. The consumer waits for that, but
//! never longer than the flush interval: woken, it sends what the buffer
//! holds; timed out, it sends a keepalive. [`SharedState`] holds what the two
//! share and decides each step; waiting and waking are for whoever drives it.

use crate::receiver::{Receiver, TimedOut};
use core::task::Waker;
use std::time::{Duration, Instant};
use vstd::prelude::*;

verus! {

/// `core::task::Waker`, carried as an opaque value.
#[verifier::external_type_specification]
#[verifier::external_body]
pub struct ExWaker(Waker);

/// `Waker::wake` wakes the task that the waker belongs to. It returns
/// nothing, and nothing is claimed of it.
pub assume_specification[ Waker::wake ](waker: Waker);

/// What one step of the consumer did.
#[derive(Clone, Copy, Debug, PartialEq, Eq, Structural)]
pub enum Step {
    /// The producer is done: the consumer stops.
    Stop,
    /// The wait timed out: a keepalive went to the receiver.
    KeptAlive,
    /// The consumer was woken: the buffer's `values` values went to the
    /// receiver.
    Sent { values: usize },
}

/// What producer and consumer share.
pub struct SharedState {
    waker: Option<Waker>,
    exit: bool,
    messages_buffer: Vec<usize>,
    flush_limit: usize,
    flush_interval: Duration,
    receiver: Receiver,
}

impl SharedState {
    /// The waker that the consumer has parked, if any.
    pub closed spec fn parked(&self) -> Option<Waker> {
        self.waker
    }

    /// Whether the producer is done.
    pub closed spec fn exiting(&self) -> bool {
        self.exit
    }

    /// The ticks that wait to be flushed, oldest first.
    pub closed spec fn buffered(&self) -> Seq<usize> {
        self.messages_buffer@
    }

    /// The flush limit: every tick that is a multiple of it wakes the
    /// consumer.
    pub closed spec fn limit(&self) -> usize {
        self.flush_limit
    }

    /// How long the consumer waits before it sends a keepalive.
    pub closed spec fn interval(&self) -> Duration {
        self.flush_interval
    }

    /// The receiver that the consumer flushes to.
    pub closed spec fn sink(&self) -> Receiver {
        self.receiver
    }

    /// A state with an empty buffer and no parked waker, for a producer
    /// that is not done.
    pub fn new(flush_limit: usize, flush_interval: Duration, receiver: Receiver) -> (state: Self)
        ensures
            state.parked().is_none(),
            !state.exiting(),
            state.buffered() == Seq::<usize>::empty(),
            state.limit() == flush_limit,
            state.interval() == flush_interval,
            state.sink() == receiver,
    {
        SharedState {
            waker: None,
            exit: false,
            messages_buffer: Vec::new(),
            flush_limit,
            flush_interval,
            receiver,
        }
    }

    /// The flush limit.
    pub fn flush_limit(&self) -> (limit: usize)
        ensures
            limit == self.limit(),
    {
        self.flush_limit
    }

    /// How long the consumer waits before it sends a keepalive.
    pub fn flush_interval(&self) -> (interval: Duration)
        ensures
            interval == self.interval(),
    {
        self.flush_interval
    }

    /// Number of ticks that wait to be flushed.
    pub fn pending(&self) -> (ticks: usize)
        ensures
            ticks == self.buffered().len(),
    {
        self.messages_buffer.len()
    }

    /// Whether the consumer has parked a waker.
    pub fn is_parked(&self) -> (parked: bool)
        ensures
            parked == self.parked().is_some(),
    {
        self.waker.is_some()
    }

    /// Whether the producer is done.
    pub fn is_exiting(&self) -> (exiting: bool)
        ensures
            exiting == self.exiting(),
    {
        self.exit
    }

    /// The last value that the receiver accepted.
    pub fn last_received(&self) -> (value: usize)
        ensures
            value == self.sink().last_data_value(),
    {
        self.receiver.last_value()
    }

    /// Tells the consumer that the producer is done.
    pub fn set_exit(&mut self)
        ensures
            final(self).exiting(),
            final(self).parked() == old(self).parked(),
            final(self).buffered() == old(self).buffered(),
            final(self).limit() == old(self).limit(),
            final(self).interval() == old(self).interval(),
            final(self).sink() == old(self).sink(),
    {
        self.exit = true;
    }

    /// Adds the tick `i` to the buffer. If `i` is a multiple of the flush
    /// limit, the parked waker, if there is one, is taken and woken.
    pub fn push_ticks(&mut self, i: usize)
        requires
            old(self).limit() > 0,
        ensures
            final(self).buffered() == old(self).buffered().push(i),
            final(self).parked() == (if i % old(self).limit() == 0 {
                None
            } else {
                old(self).parked()
            }),
            final(self).exiting() == old(self).exiting(),
            final(self).limit() == old(self).limit(),
            final(self).interval() == old(self).interval(),
            final(self).sink() == old(self).sink(),
    {
        self.messages_buffer.push(i);
        if i % self.flush_limit == 0 {
            if let Some(w) = self.waker.take() {
                w.wake()
            }
        }
    }

    /// One poll of a consumer that waits for the buffer, on one thread with
    /// the producer: `waker` is parked in place of any waker parked before,
    /// and the wait is over exactly if none was parked, which is so at the
    /// first poll and after the producer has taken the waker to wake it.
    pub fn poll(&mut self, waker: Waker) -> (ready: bool)
        ensures
            ready == old(self).parked().is_none(),
            final(self).parked() == Some(waker),
            final(self).exiting() == old(self).exiting(),
            final(self).buffered() == old(self).buffered(),
            final(self).limit() == old(self).limit(),
            final(self).interval() == old(self).interval(),
            final(self).sink() == old(self).sink(),
    {
        let previous = self.waker.take();
        self.waker = Some(waker);
        previous.is_none()
    }

    /// One poll of a consumer that waits for the buffer, on another thread
    /// than the producer: `waker` is parked in place of any waker parked
    /// before, and the wait is over exactly if one was parked.
    pub fn poll_parked(&mut self, waker: Waker) -> (ready: bool)
        ensures
            ready == old(self).parked().is_some(),
            final(self).parked() == Some(waker),
            final(self).exiting() == old(self).exiting(),
            final(self).buffered() == old(self).buffered(),
            final(self).limit() == old(self).limit(),
            final(self).interval() == old(self).interval(),
            final(self).sink() == old(self).sink(),
    {
        let previous = self.waker.take();
        self.waker = Some(waker);
        previous.is_some()
    }

    /// One step of the consumer after a wait that ended at `now`, when the
    /// receiver had been silent for `silent_ms` milliseconds; `timed_out`
    /// says whether the wait ended by the flush interval running out.
    ///
    /// If the producer is done the consumer stops and nothing changes.
    /// After a timeout a keepalive goes to the receiver and the buffer is
    /// left alone. Otherwise the buffer is emptied, and its values go to the
    /// receiver. The receiver refuses what comes after a silence of
    /// [`crate::receiver::MAX_SILENCE_MS`] or more, and then stays as it was.
    pub fn receive_step_at(&mut self, timed_out: bool, silent_ms: u128, now: Instant) -> (step:
        Result<Step, TimedOut>)
        requires
            !old(self).exiting() && !timed_out ==> old(self).buffered().len() > 0,
        ensures
            final(self).parked() == old(self).parked(),
            final(self).exiting() == old(self).exiting(),
            final(self).limit() == old(self).limit(),
            final(self).interval() == old(self).interval(),
            old(self).exiting() ==> {
                &&& step == Ok::<Step, TimedOut>(Step::Stop)
                &&& final(self).buffered() == old(self).buffered()
                &&& final(self).sink() == old(self).sink()
            },
            !old(self).exiting() ==> {
                &&& step.is_ok() == (silent_ms < crate::receiver::MAX_SILENCE_MS)
                &&& step.is_err() ==> step == Err::<Step, TimedOut>(TimedOut { silent_ms })
                    && final(self).sink() == old(self).sink()
                &&& step.is_ok() ==> final(self).sink().last_accessed() == now
            },
            !old(self).exiting() && timed_out ==> {
                &&& step.is_ok() ==> step == Ok::<Step, TimedOut>(Step::KeptAlive)
                &&& final(self).buffered() == old(self).buffered()
                &&& final(self).sink().last_data_value() == old(self).sink().last_data_value()
            },
            !old(self).exiting() && !timed_out ==> {
                &&& step.is_ok() ==> step == Ok::<Step, TimedOut>(
                    Step::Sent { values: old(self).buffered().len() as usize },
                )
                &&& final(self).buffered() == Seq::<usize>::empty()
                &&& step.is_ok() ==> final(self).sink().last_data_value() == old(self).buffered().last()
            },
    {
        if self.exit {
            return Ok(Step::Stop);
        }
        if timed_out {
            return match self.receiver.record_keepalive(silent_ms, now) {
                Ok(()) => Ok(Step::KeptAlive),
                Err(late) => Err(late),
            };
        }
        let mut data: Vec<usize> = Vec::new();
        std::mem::swap(&mut data, &mut self.messages_buffer);
        match self.receiver.record_data(silent_ms, now, data.as_slice()) {
            Ok(()) => Ok(Step::Sent { values: data.len() }),
            Err(late) => Err(late),
        }
    }

    /// One step of the consumer after a wait; `timed_out` says whether the
    /// wait ended by the flush interval running out.
    ///
    /// It reads the clock and does what [`SharedState::receive_step_at`]
    /// does for that reading: whether the receiver accepts is for the clock
    /// to say.
    pub fn receive_step(&mut self, timed_out: bool) -> (step: Result<Step, TimedOut>)
        requires
            !old(self).exiting() && !timed_out ==> old(self).buffered().len() > 0,
        ensures
            final(self).parked() == old(self).parked(),
            final(self).exiting() == old(self).exiting(),
            final(self).limit() == old(self).limit(),
            final(self).interval() == old(self).interval(),
            old(self).exiting() ==> {
                &&& step == Ok::<Step, TimedOut>(Step::Stop)
                &&& final(self).buffered() == old(self).buffered()
                &&& final(self).sink() == old(self).sink()
            },
            !old(self).exiting() ==> match step {
                Ok(done) => done == (if timed_out {
                    Step::KeptAlive
                } else {
                    Step::Sent { values: old(self).buffered().len() as usize }
                }),
                Err(late) => late.silent_ms >= crate::receiver::MAX_SILENCE_MS && final(self).sink() == old(self).sink(),
            },
            !old(self).exiting() && timed_out ==> {
                &&& final(self).buffered() == old(self).buffered()
                &&& final(self).sink().last_data_value() == old(self).sink().last_data_value()
            },
            !old(self).exiting() && !timed_out ==> {
                &&& final(self).buffered() == Seq::<usize>::empty()
                &&& step.is_ok() ==> final(self).sink().last_data_value() == old(self).buffered().last()
            },
    {
        let silent_ms = self.receiver.silent_ms();
        self.receive_step_at(timed_out, silent_ms, Instant::now())
    }
}

} // verus!
