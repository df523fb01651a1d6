//! Flashing sessions: which flasher step comes next, which progress and
//! error events to announce, and when an attempt counts as a success.
//!
//! Percentages are in hundredths of a percent: 10000 is 100%.

use vstd::prelude::*;

verus! {

pub const PERCENT_DONE: u32 = 10000;

pub const STM32FLASH_DEFAULT_ATTEMPTS: u8 = 3;

pub const STM32FLASH_DEFAULT_DELAY_MS: u64 = 5000;

pub const PING360_DEFAULT_ATTEMPTS: u8 = 3;

pub const PING360_DEFAULT_DELAY_MS: u64 = 10000;

/// How one flasher run ended.
#[derive(Clone, Copy, Debug, PartialEq, Eq, Structural)]
pub enum FlashResult {
    Success,
    /// Exit codes 1 and 2: the serial port was most likely busy.
    PortBusy,
    /// Any other failure, including failing to start or to wait.
    OtherError,
}

impl FlashResult {
    /// Classifies an exit status: success, codes 1 and 2 as a busy port,
    /// anything else (a signal leaves no code) as another error.
    pub fn from_exit(success: bool, code: Option<i32>) -> (r: FlashResult)
        ensures
            success ==> r == FlashResult::Success,
            !success && (code == Some(1i32) || code == Some(2i32)) ==> r == FlashResult::PortBusy,
            !success && code != Some(1i32) && code != Some(2i32) ==> r == FlashResult::OtherError,
    {
        if success {
            FlashResult::Success
        } else {
            match code {
                Some(c) => if c == 1 || c == 2 {
                    FlashResult::PortBusy
                } else {
                    FlashResult::OtherError
                },
                None => FlashResult::OtherError,
            }
        }
    }
}

/// Something to announce to the update's subscribers.
#[derive(Clone, Copy, Debug, PartialEq, Eq, Structural)]
pub enum FlashEvent {
    /// Progress, in hundredths of a percent.
    Progress(u32),
    /// An attempt failed; attempt `attempt` of `max_attempts` follows
    /// after `delay_ms` milliseconds.
    RetryScheduled { attempt: u8, max_attempts: u8, delay_ms: u64 },
    /// Every attempt failed.
    Failed { attempts: u8 },
}

/// What the runtime does next.
#[derive(Clone, Copy, Debug, PartialEq, Eq, Structural)]
pub enum FlashAction {
    /// Run `stm32flash` with the write-and-verify arguments.
    RunWrite,
    /// Run `stm32flash` with the go arguments.
    RunGo,
    /// Run `ping360-bootloader`.
    RunBootloader,
    /// Sleep this many milliseconds, then report back.
    Wait(u64),
    /// The update is over; call the completion callback with this.
    Done(bool),
}

pub struct FlashStep {
    pub events: Vec<FlashEvent>,
    pub action: FlashAction,
}

#[derive(Clone, Copy, Debug, PartialEq, Eq, Structural)]
pub enum Stm32Phase {
    Write,
    Go,
    Waiting,
    Finished,
}

/// A two-phase `stm32flash` update with retries.
#[derive(Clone, Copy, Debug, PartialEq, Eq, Structural)]
pub struct Stm32FlashSession {
    pub attempt: u8,
    pub max_attempts: u8,
    pub delay_ms: u64,
    pub phase: Stm32Phase,
}

/// After a failed phase: another attempt after the delay, or the end.
pub open spec fn stm32_retry_or_fail(s: Stm32FlashSession) -> (
    Stm32FlashSession,
    Seq<FlashEvent>,
    FlashAction,
) {
    if s.attempt < s.max_attempts {
        (
            Stm32FlashSession { attempt: (s.attempt + 1) as u8, phase: Stm32Phase::Waiting, ..s },
            seq![
                FlashEvent::RetryScheduled {
                    attempt: (s.attempt + 1) as u8,
                    max_attempts: s.max_attempts,
                    delay_ms: s.delay_ms,
                },
            ],
            FlashAction::Wait(s.delay_ms),
        )
    } else {
        (
            Stm32FlashSession { phase: Stm32Phase::Finished, ..s },
            seq![FlashEvent::Failed { attempts: s.max_attempts }],
            FlashAction::Done(false),
        )
    }
}

/// The session's response to a phase's end. The go phase follows only a
/// successful write-and-verify phase of the same attempt.
pub open spec fn stm32_next(s: Stm32FlashSession, result: FlashResult) -> (
    Stm32FlashSession,
    Seq<FlashEvent>,
    FlashAction,
) {
    if s.phase == Stm32Phase::Write && result == FlashResult::Success {
        (Stm32FlashSession { phase: Stm32Phase::Go, ..s }, seq![], FlashAction::RunGo)
    } else if s.phase == Stm32Phase::Go && result == FlashResult::Success {
        (
            Stm32FlashSession { phase: Stm32Phase::Finished, ..s },
            seq![FlashEvent::Progress(PERCENT_DONE)],
            FlashAction::Done(true),
        )
    } else {
        stm32_retry_or_fail(s)
    }
}

/// Two-phase gating: the go phase is started exactly when the
/// write-and-verify phase succeeded, and within the same attempt.
pub proof fn lemma_two_phase_gating(s: Stm32FlashSession, result: FlashResult)
    requires
        s.phase == Stm32Phase::Write || s.phase == Stm32Phase::Go,
    ensures
        (stm32_next(s, result).2 == FlashAction::RunGo) <==> (s.phase == Stm32Phase::Write
            && result == FlashResult::Success),
        stm32_next(s, result).2 == FlashAction::RunGo ==> stm32_next(s, result).0.attempt
            == s.attempt,
{
}

/// The attempt counter is within what a session with `max` attempts may
/// reach: it starts at 1 and never passes `max` (one attempt is always
/// made).
pub open spec fn attempts_within(attempt: u8, max: u8) -> bool {
    1 <= attempt && (attempt <= max || attempt == 1)
}

/// Retry bound for `stm32flash`: over a whole run no step takes the
/// attempt counter past the allowed attempts; a wait is scheduled only
/// when another attempt is allowed, and it starts exactly the next one;
/// the run ends in success only after its go phase succeeded.
pub proof fn lemma_stm32_attempts_bounded(s: Stm32FlashSession, result: FlashResult)
    requires
        s.phase == Stm32Phase::Write || s.phase == Stm32Phase::Go,
        attempts_within(s.attempt, s.max_attempts),
    ensures
        attempts_within(stm32_next(s, result).0.attempt, s.max_attempts),
        stm32_next(s, result).0.max_attempts == s.max_attempts,
        stm32_next(s, result).2 is Wait ==> s.attempt < s.max_attempts
            && stm32_next(s, result).0.attempt == s.attempt + 1,
        stm32_next(s, result).2 == FlashAction::Done(true) ==> s.phase == Stm32Phase::Go && result
            == FlashResult::Success,
{
}

impl Stm32FlashSession {
    /// A session with at most `max_attempts` attempts (3 by default, at
    /// least one is made) and `delay_ms` between them (5000 by default).
    pub fn new(max_attempts: Option<u8>, delay_ms: Option<u64>) -> (r: Stm32FlashSession)
        ensures
            r.attempt == 1,
            r.phase == Stm32Phase::Write,
            r.max_attempts == match max_attempts {
                Some(m) => m,
                None => STM32FLASH_DEFAULT_ATTEMPTS,
            },
            r.delay_ms == match delay_ms {
                Some(d) => d,
                None => STM32FLASH_DEFAULT_DELAY_MS,
            },
    {
        let max_attempts = match max_attempts {
            Some(m) => m,
            None => STM32FLASH_DEFAULT_ATTEMPTS,
        };
        let delay_ms = match delay_ms {
            Some(d) => d,
            None => STM32FLASH_DEFAULT_DELAY_MS,
        };
        Stm32FlashSession { attempt: 1, max_attempts, delay_ms, phase: Stm32Phase::Write }
    }

    /// The first step: announce 0% and run the write-and-verify phase.
    pub fn begin(&self) -> (r: FlashStep)
        ensures
            r.events@ == seq![FlashEvent::Progress(0)],
            r.action == FlashAction::RunWrite,
    {
        FlashStep { events: vec![FlashEvent::Progress(0)], action: FlashAction::RunWrite }
    }

    /// Reports how the running phase ended.
    pub fn on_exit(&mut self, result: FlashResult) -> (r: FlashStep)
        requires
            old(self).phase == Stm32Phase::Write || old(self).phase == Stm32Phase::Go,
        ensures
            (*final(self), r.events@, r.action) == stm32_next(*old(self), result),
    {
        if self.phase == Stm32Phase::Write && result == FlashResult::Success {
            self.phase = Stm32Phase::Go;
            return FlashStep { events: Vec::new(), action: FlashAction::RunGo };
        }
        if self.phase == Stm32Phase::Go && result == FlashResult::Success {
            self.phase = Stm32Phase::Finished;
            return FlashStep {
                events: vec![FlashEvent::Progress(PERCENT_DONE)],
                action: FlashAction::Done(true),
            };
        }
        if self.attempt < self.max_attempts {
            self.attempt = self.attempt + 1;
            self.phase = Stm32Phase::Waiting;
            let ev = FlashEvent::RetryScheduled {
                attempt: self.attempt,
                max_attempts: self.max_attempts,
                delay_ms: self.delay_ms,
            };
            FlashStep { events: vec![ev], action: FlashAction::Wait(self.delay_ms) }
        } else {
            self.phase = Stm32Phase::Finished;
            FlashStep {
                events: vec![FlashEvent::Failed { attempts: self.max_attempts }],
                action: FlashAction::Done(false),
            }
        }
    }

    /// The wait before a new attempt is over: announce 0% and run the
    /// write-and-verify phase again.
    pub fn after_wait(&mut self) -> (r: FlashStep)
        requires
            old(self).phase == Stm32Phase::Waiting,
        ensures
            *final(self) == (Stm32FlashSession { phase: Stm32Phase::Write, ..*old(self) }),
            r.events@ == seq![FlashEvent::Progress(0)],
            r.action == FlashAction::RunWrite,
    {
        self.phase = Stm32Phase::Write;
        FlashStep { events: vec![FlashEvent::Progress(0)], action: FlashAction::RunWrite }
    }
}

#[derive(Clone, Copy, Debug, PartialEq, Eq, Structural)]
pub enum Ping360Phase {
    Running,
    Waiting,
    Finished,
}

/// A `ping360-bootloader` update with retries.
#[derive(Clone, Copy, Debug, PartialEq, Eq, Structural)]
pub struct Ping360FlashSession {
    pub attempt: u8,
    pub max_attempts: u8,
    pub delay_ms: u64,
    pub phase: Ping360Phase,
}

pub open spec fn ping360_next(s: Ping360FlashSession, succeeded: bool) -> (
    Ping360FlashSession,
    Seq<FlashEvent>,
    FlashAction,
) {
    if succeeded {
        (
            Ping360FlashSession { phase: Ping360Phase::Finished, ..s },
            seq![FlashEvent::Progress(PERCENT_DONE)],
            FlashAction::Done(true),
        )
    } else if s.attempt < s.max_attempts {
        (
            Ping360FlashSession { attempt: (s.attempt + 1) as u8, phase: Ping360Phase::Waiting, ..s },
            seq![
                FlashEvent::RetryScheduled {
                    attempt: (s.attempt + 1) as u8,
                    max_attempts: s.max_attempts,
                    delay_ms: s.delay_ms,
                },
            ],
            FlashAction::Wait(s.delay_ms),
        )
    } else {
        (
            Ping360FlashSession { phase: Ping360Phase::Finished, ..s },
            seq![FlashEvent::Failed { attempts: s.max_attempts }],
            FlashAction::Done(false),
        )
    }
}

/// Retry bound for `ping360-bootloader`: the same over a whole run; it
/// ends in success exactly when an attempt succeeded.
pub proof fn lemma_ping360_attempts_bounded(s: Ping360FlashSession, succeeded: bool)
    requires
        s.phase == Ping360Phase::Running,
        attempts_within(s.attempt, s.max_attempts),
    ensures
        attempts_within(ping360_next(s, succeeded).0.attempt, s.max_attempts),
        ping360_next(s, succeeded).0.max_attempts == s.max_attempts,
        ping360_next(s, succeeded).2 is Wait ==> s.attempt < s.max_attempts
            && ping360_next(s, succeeded).0.attempt == s.attempt + 1,
        (ping360_next(s, succeeded).2 == FlashAction::Done(true)) == succeeded,
{
}

impl Ping360FlashSession {
    /// A session with at most `max_attempts` attempts (3 by default, at
    /// least one is made) and `delay_ms` between them (10000 by default).
    pub fn new(max_attempts: Option<u8>, delay_ms: Option<u64>) -> (r: Ping360FlashSession)
        ensures
            r.attempt == 1,
            r.phase == Ping360Phase::Running,
            r.max_attempts == match max_attempts {
                Some(m) => m,
                None => PING360_DEFAULT_ATTEMPTS,
            },
            r.delay_ms == match delay_ms {
                Some(d) => d,
                None => PING360_DEFAULT_DELAY_MS,
            },
    {
        let max_attempts = match max_attempts {
            Some(m) => m,
            None => PING360_DEFAULT_ATTEMPTS,
        };
        let delay_ms = match delay_ms {
            Some(d) => d,
            None => PING360_DEFAULT_DELAY_MS,
        };
        Ping360FlashSession { attempt: 1, max_attempts, delay_ms, phase: Ping360Phase::Running }
    }

    /// The first step: announce 0% and run the bootloader.
    pub fn begin(&self) -> (r: FlashStep)
        ensures
            r.events@ == seq![FlashEvent::Progress(0)],
            r.action == FlashAction::RunBootloader,
    {
        FlashStep { events: vec![FlashEvent::Progress(0)], action: FlashAction::RunBootloader }
    }

    /// Reports whether the running attempt succeeded (see
    /// `Ping360Scan::attempt_succeeded`).
    pub fn on_attempt_end(&mut self, succeeded: bool) -> (r: FlashStep)
        requires
            old(self).phase == Ping360Phase::Running,
        ensures
            (*final(self), r.events@, r.action) == ping360_next(*old(self), succeeded),
    {
        if succeeded {
            self.phase = Ping360Phase::Finished;
            return FlashStep {
                events: vec![FlashEvent::Progress(PERCENT_DONE)],
                action: FlashAction::Done(true),
            };
        }
        if self.attempt < self.max_attempts {
            self.attempt = self.attempt + 1;
            self.phase = Ping360Phase::Waiting;
            let ev = FlashEvent::RetryScheduled {
                attempt: self.attempt,
                max_attempts: self.max_attempts,
                delay_ms: self.delay_ms,
            };
            FlashStep { events: vec![ev], action: FlashAction::Wait(self.delay_ms) }
        } else {
            self.phase = Ping360Phase::Finished;
            FlashStep {
                events: vec![FlashEvent::Failed { attempts: self.max_attempts }],
                action: FlashAction::Done(false),
            }
        }
    }

    /// The wait before a new attempt is over: run the bootloader again.
    pub fn after_wait(&mut self) -> (r: FlashStep)
        requires
            old(self).phase == Ping360Phase::Waiting,
        ensures
            *final(self) == (Ping360FlashSession { phase: Ping360Phase::Running, ..*old(self) }),
            r.events@ == Seq::<FlashEvent>::empty(),
            r.action == FlashAction::RunBootloader,
    {
        self.phase = Ping360Phase::Running;
        FlashStep { events: Vec::new(), action: FlashAction::RunBootloader }
    }
}

} // verus!
