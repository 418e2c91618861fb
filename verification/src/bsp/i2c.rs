//! The retry policy of the I2C bus of the board.
//!
//! A transfer is attempted up to a fixed number of times, with a pause after
//! every attempt that fails; each attempt has a deadline. What is decided here
//! is when to try again, how long to pause before that, and when to give up.

use vstd::prelude::*;
use crate::time::Ms;

verus! {

/// The pause after a failed attempt, in milliseconds.
pub const RETRY_DELAY_MS: usize = 20;

/// What to do next with a transfer that has not succeeded yet.
#[derive(Clone, Copy, Debug, PartialEq, Eq, Structural, Hash)]
pub enum Progress {
    /// Make an attempt.
    Attempt,
    /// Give up: the transfer has timed out.
    TimedOut,
}

/// The point after which an attempt on the bus is abandoned.
#[derive(Clone, Copy, Debug, PartialEq, Eq, Structural, Hash)]
pub struct Deadline {
    /// When the attempt began.
    pub start: Ms,
    /// How long the attempt may take.
    pub timeout: Ms,
}

impl Deadline {
    /// Whether the attempt has taken longer than it may, at the time `now`.
    pub open spec fn spec_expired(self, now: Ms) -> bool {
        now.spec_elapsed_since(self.start).0 > self.timeout.0
    }

    pub fn expired(&self, now: Ms) -> (expired: bool)
        ensures
            expired == self.spec_expired(now),
    {
        now.elapsed_since(self.start).0 > self.timeout.0
    }
}

/// The deadline of an attempt that begins at `now` and may take `timeout`.
pub fn timeout_fn(now: Ms, timeout: Ms) -> (deadline: Deadline)
    ensures
        deadline == (Deadline { start: now, timeout }),
        !deadline.spec_expired(now),
{
    Deadline { start: now, timeout }
}

/// A bus with a limit on how long an attempt may take and on how many
/// attempts a transfer gets.
pub struct RobustI2c<B> {
    i2c: B,
    timeout: Ms,
    retries: u8,
}

impl<B> RobustI2c<B> {
    pub closed spec fn spec_i2c(&self) -> B {
        self.i2c
    }

    pub closed spec fn spec_timeout(&self) -> Ms {
        self.timeout
    }

    pub closed spec fn spec_retries(&self) -> u8 {
        self.retries
    }

    /// What to do with a transfer of which `failures` attempts have failed
    /// and none has succeeded: another attempt while there have been fewer
    /// than `retries`, else give up.
    pub open spec fn spec_next_attempt(&self, failures: u8) -> Progress {
        next_attempt(self.spec_retries(), failures)
    }

    /// The pause that follows every failed attempt of a transfer, of whatever
    /// kind the transfer is.
    pub open spec fn spec_pause_after_failure() -> Ms {
        Ms(RETRY_DELAY_MS)
    }

    pub fn new(i2c: B, timeout: Ms, retries: u8) -> (bus: Self)
        ensures
            bus.spec_i2c() == i2c,
            bus.spec_timeout() == timeout,
            bus.spec_retries() == retries,
    {
        Self { i2c, timeout, retries }
    }

    /// The bus itself, to make an attempt on.
    pub fn i2c(&mut self) -> (i2c: &mut B)
        ensures
            *i2c == old(self).spec_i2c(),
            final(self).spec_i2c() == *final(i2c),
            final(self).spec_timeout() == old(self).spec_timeout(),
            final(self).spec_retries() == old(self).spec_retries(),
    {
        &mut self.i2c
    }

    /// The deadline of an attempt that begins at `now`.
    pub fn deadline(&self, now: Ms) -> (deadline: Deadline)
        ensures
            deadline == (Deadline { start: now, timeout: self.spec_timeout() }),
    {
        timeout_fn(now, self.timeout)
    }

    /// Decides whether a transfer gets another attempt.
    pub fn next_attempt(&self, failures: u8) -> (progress: Progress)
        ensures
            progress == self.spec_next_attempt(failures),
    {
        if failures < self.retries {
            Progress::Attempt
        } else {
            Progress::TimedOut
        }
    }

    /// How long to wait after a failed attempt before anything else is done
    /// with the transfer.
    pub fn pause_after_failure() -> (pause: Ms)
        ensures
            pause == Self::spec_pause_after_failure(),
    {
        Ms(RETRY_DELAY_MS)
    }
}

/// What to do with a transfer that gets `retries` attempts at most, of which
/// `failures` have failed and none has succeeded.
pub open spec fn next_attempt(retries: u8, failures: u8) -> Progress {
    if failures < retries {
        Progress::Attempt
    } else {
        Progress::TimedOut
    }
}

/// How a transfer ends that follows [`next_attempt`] from `failures` failed
/// attempts on, where `attempts[i]` tells whether its attempt number `i`
/// succeeds: whether it succeeds, and how many attempts have failed by then.
pub open spec fn transfer_outcome(retries: u8, attempts: Seq<bool>, failures: u8) -> (bool, u8)
    decreases retries - failures,
{
    if next_attempt(retries, failures) == Progress::TimedOut {
        (false, failures)
    } else if attempts[failures as int] {
        (true, failures)
    } else {
        transfer_outcome(retries, attempts, (failures + 1) as u8)
    }
}

/// A transfer succeeds exactly if one of the attempts it gets succeeds, and on
/// the first such; it fails only after it has made all its attempts, and never
/// makes more.
pub proof fn lemma_transfer_outcome(retries: u8, attempts: Seq<bool>, failures: u8)
    requires
        failures <= retries,
        attempts.len() >= retries,
    ensures
        ({
            let (succeeded, failed) = transfer_outcome(retries, attempts, failures);
            &&& failures <= failed <= retries
            &&& forall|i: int| failures <= i < failed ==> !attempts[i]
            &&& succeeded ==> failed < retries && attempts[failed as int]
            &&& !succeeded ==> failed == retries
        }),
    decreases retries - failures,
{
    if failures < retries && !attempts[failures as int] {
        lemma_transfer_outcome(retries, attempts, (failures + 1) as u8);
    }
}

} // verus!
