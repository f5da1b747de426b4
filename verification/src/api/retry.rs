//! The policy of the retrying client: how a reply is decoded, and whether
//! a failed attempt is followed by another.

use vstd::prelude::*;

verus! {

/// Pause between two attempts, in milliseconds.
pub const RETRY_DELAY_MS: u64 = 200;

/// A reply that is neither of the success shape nor of the error shape.
#[derive(Debug, Clone, Copy, PartialEq, Eq, Structural)]
pub struct Undecodable;

/// Decides what a reply body is. `success` is the body read as the success
/// type, `error` the body read as the error type; each is `None` where the
/// body does not have that shape. The success shape is preferred; a body of
/// neither shape is a hard failure.
pub fn decode<T, E>(success: Option<T>, error: Option<E>) -> (r: Result<Result<T, E>, Undecodable>)
    ensures
        r == (match (success, error) {
            (Some(t), _) => Ok::<Result<T, E>, Undecodable>(Ok(t)),
            (None, Some(e)) => Ok(Err(e)),
            (None, None) => Err(Undecodable),
        }),
{
    match success {
        Some(t) => Ok(Ok(t)),
        None => match error {
            Some(e) => Ok(Err(e)),
            None => Err(Undecodable),
        },
    }
}

/// Decides what a reply without a success body is: the error that the body
/// holds, or else the status that the reply came with.
pub fn decode_status<E>(status: u16, error: Option<E>) -> (r: Result<u16, E>)
    ensures
        r == (match error {
            Some(e) => Err::<u16, E>(e),
            None => Ok(status),
        }),
{
    match error {
        Some(e) => Err(e),
        None => Ok(status),
    }
}

/// What follows a failed attempt.
#[derive(Debug, Clone, Copy, PartialEq, Eq, Structural)]
pub enum RetryAction {
    /// The last error is the result.
    GiveUp,
    /// Another attempt, after this many milliseconds.
    RetryAfter(u64),
}

/// The count of the attempts of one request.
#[derive(Debug, Clone, Copy, PartialEq, Eq, Structural)]
pub struct Retry {
    limit: usize,
    failures: usize,
}

impl Retry {
    /// The number of attempts that are made at most; at least one.
    pub closed spec fn limit(self) -> nat {
        self.limit as nat
    }

    /// The number of attempts that have failed so far.
    pub closed spec fn failures(self) -> nat {
        self.failures as nat
    }

    /// The count is consistent: no more failures than attempts allowed.
    pub closed spec fn wf(self) -> bool {
        1 <= self.limit && self.failures <= self.limit
    }

    /// A request that is tried up to `retries` times, but at least once.
    pub fn new(retries: usize) -> (r: Retry)
        ensures
            r.wf(),
            r.limit() == (if retries >= 1 {
                retries as nat
            } else {
                1
            }),
            r.failures() == 0,
    {
        Retry { limit: if retries >= 1 {
            retries
        } else {
            1
        }, failures: 0 }
    }

    /// An attempt has failed, be it in transport or in decoding. Another
    /// one follows after the fixed delay unless the limit is reached.
    pub fn failed(&mut self) -> (a: RetryAction)
        requires
            old(self).wf(),
        ensures
            final(self).wf(),
            final(self).limit() == old(self).limit(),
            final(self).failures() == (if old(self).failures() < old(self).limit() {
                old(self).failures() + 1
            } else {
                old(self).failures()
            }),
            a == (if final(self).failures() >= final(self).limit() {
                RetryAction::GiveUp
            } else {
                RetryAction::RetryAfter(RETRY_DELAY_MS)
            }),
    {
        if self.failures < self.limit {
            self.failures = self.failures + 1;
        }
        if self.failures >= self.limit {
            RetryAction::GiveUp
        } else {
            RetryAction::RetryAfter(RETRY_DELAY_MS)
        }
    }

    /// Whether no further attempt is made.
    pub fn exhausted(&self) -> (b: bool)
        ensures
            b == (self.failures() >= self.limit()),
    {
        self.failures >= self.limit
    }
}

} // verus!
