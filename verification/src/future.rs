//! The single-result future over a browser or a service.
//!
//! A browser or a service can be awaited: the future starts it on its first
//! poll, turns the event loop on every further one, and completes with the
//! first result that the callback received. What each poll does is decided
//! here; starting, turning the loop and waking the task are the caller's.

use crate::error::Error;
use vstd::prelude::*;

verus! {

/// What one poll of the future has to do.
#[derive(Debug, PartialEq, Eq)]
pub enum FutureStep<T> {
    /// A result is there: the future completes with it.
    Ready(Result<T, Error>),
    /// The event loop runs: turn it once, and hand the outcome to
    /// [`FutureState::polled`].
    PollEventLoop,
    /// Nothing has been started: start the browser or the service, and hand
    /// the outcome to [`FutureState::started`].
    Start,
}

/// What one poll of the future answers.
#[derive(Debug, PartialEq, Eq)]
pub enum FuturePoll<T> {
    /// The future completes with this result.
    Ready(Result<T, Error>),
    /// The future is not done: wake the task, so that it is polled again.
    Pending,
}

/// What a future knows between two polls.
#[derive(Debug)]
pub struct FutureState<T> {
    result: Option<Result<T, Error>>,
    started: bool,
}

impl<T> FutureState<T> {
    /// The result that the callback received first and that no poll has
    /// taken yet.
    pub closed spec fn result(&self) -> Option<Result<T, Error>> {
        self.result
    }

    /// Whether the event loop runs.
    pub closed spec fn is_started(&self) -> bool {
        self.started
    }

    /// The state of a future that has not been polled.
    pub fn new() -> (state: Self)
        ensures
            state.result() is None,
            !state.is_started(),
    {
        Self { result: None, started: false }
    }

    /// Keeps a result that the callback received. Only the first result is
    /// kept until a poll takes it: the future yields one value, not a stream.
    pub fn record(&mut self, result: Result<T, Error>)
        ensures
            final(self).is_started() == old(self).is_started(),
            final(self).result() == if old(self).result() is None {
                Some(result)
            } else {
                old(self).result()
            },
    {
        if self.result.is_none() {
            self.result = Some(result);
        }
    }

    /// Decides what a poll has to do: complete with the result where there
    /// is one, which is thereby taken; else turn the event loop where it
    /// runs; else start it.
    pub fn poll(&mut self) -> (step: FutureStep<T>)
        ensures
            final(self).is_started() == old(self).is_started(),
            final(self).result() is None,
            step == match old(self).result() {
                Some(result) => FutureStep::Ready(result),
                None => if old(self).is_started() {
                    FutureStep::PollEventLoop
                } else {
                    FutureStep::Start
                },
            },
    {
        match self.result.take() {
            Some(result) => FutureStep::Ready(result),
            None => if self.started {
                FutureStep::PollEventLoop
            } else {
                FutureStep::Start
            },
        }
    }

    /// Takes the outcome of turning the event loop: an error completes the
    /// future, and else the future stays pending.
    pub fn polled(&self, outcome: Result<(), Error>) -> (poll: FuturePoll<T>)
        ensures
            poll == match outcome {
                Err(e) => FuturePoll::<T>::Ready(Err(e)),
                Ok(_) => FuturePoll::Pending,
            },
    {
        match outcome {
            Err(e) => FuturePoll::Ready(Err(e)),
            Ok(_) => FuturePoll::Pending,
        }
    }

    /// Takes the outcome of starting the browser or the service: an error
    /// completes the future; else the event loop runs from now on, and the
    /// future stays pending.
    pub fn started(&mut self, outcome: Result<(), Error>) -> (poll: FuturePoll<T>)
        ensures
            final(self).result() == old(self).result(),
            final(self).is_started() == (old(self).is_started() || outcome is Ok),
            poll == match outcome {
                Err(e) => FuturePoll::<T>::Ready(Err(e)),
                Ok(_) => FuturePoll::Pending,
            },
    {
        match outcome {
            Err(e) => FuturePoll::Ready(Err(e)),
            Ok(_) => {
                self.started = true;
                FuturePoll::Pending
            },
        }
    }
}

} // verus!
