//! The panel's power-up sequence, as a state machine.
//!
//! The sequence drives the enable line low, waits for the regulator to
//! settle, drives it high, waits for the panel to settle, and then runs the
//! controller's own initialisation. Each state names the step to perform
//! next; the caller performs its [`Command`], reports the outcome as an
//! [`Event`], and takes the next state. Delays are reported as elapsed
//! milliseconds, so any clock, real or simulated, can drive the machine.

use vstd::prelude::*;

verus! {

/// Minimum time, in milliseconds, to wait after each change of the enable
/// line.
pub const SETTLE_MS: u32 = 30;

/// Why the power-up failed.
#[derive(Clone, Copy, Debug, PartialEq, Eq, Structural)]
pub enum BringUpError {
    /// Driving the enable line failed.
    PinDrive,
    /// The display controller's initialisation failed.
    ControllerInit,
}

/// A state of the power-up sequence.
#[derive(Clone, Copy, Debug, PartialEq, Eq, Structural)]
pub enum BringUp {
    /// Drive the enable line low.
    EnableLow,
    /// Wait for the regulator; `waited_ms` have passed so far.
    Settle1 { waited_ms: u32 },
    /// Drive the enable line high.
    EnableHigh,
    /// Wait for the panel; `waited_ms` have passed so far.
    Settle2 { waited_ms: u32 },
    /// Run the display controller's initialisation.
    ControllerInit,
    /// The panel is powered and initialised.
    Ready,
    /// The sequence stopped on an error; it must be restarted from the
    /// beginning.
    Failed { error: BringUpError },
}

/// What the caller is to do next.
#[derive(Clone, Copy, Debug, PartialEq, Eq, Structural)]
pub enum Command {
    /// Drive the enable line to the given level.
    SetEnable { high: bool },
    /// Block for at least `ms` milliseconds, then report the time elapsed.
    Wait { ms: u32 },
    /// Run the display controller's initialisation.
    InitController,
    /// Nothing: the sequence has ended.
    Stop,
}

/// The outcome of the last command.
#[derive(Clone, Copy, Debug, PartialEq, Eq, Structural)]
pub enum Event {
    /// The pin drive or the initialisation succeeded.
    Done,
    /// The pin drive or the initialisation failed.
    Failed,
    /// `ms` milliseconds have passed.
    Elapsed { ms: u32 },
}

impl Event {
    pub open spec fn elapsed_ms(self) -> nat {
        match self {
            Event::Elapsed { ms } => ms as nat,
            _ => 0,
        }
    }
}

/// Time still to wait in a settle stage after `waited` milliseconds.
pub open spec fn remaining_ms(waited: u32) -> u32 {
    if waited < SETTLE_MS {
        (SETTLE_MS - waited) as u32
    } else {
        0
    }
}

/// The settle stage after `ms` more milliseconds: done once the total
/// reaches the minimum.
pub open spec fn settled(waited: u32, ms: u32) -> bool {
    waited + ms >= SETTLE_MS
}

impl BringUp {
    /// Position of the state in the fixed order of the sequence.
    pub open spec fn rank(self) -> nat {
        match self {
            BringUp::EnableLow => 0,
            BringUp::Settle1 { .. } => 1,
            BringUp::EnableHigh => 2,
            BringUp::Settle2 { .. } => 3,
            BringUp::ControllerInit => 4,
            BringUp::Ready => 5,
            BringUp::Failed { .. } => 6,
        }
    }

    /// The level of the enable line in this state.
    pub open spec fn spec_enable_high(self) -> bool {
        match self {
            BringUp::Settle2 { .. } | BringUp::ControllerInit | BringUp::Ready => true,
            BringUp::Failed { error } => error == BringUpError::ControllerInit,
            _ => false,
        }
    }

    pub open spec fn spec_command(self) -> Command {
        match self {
            BringUp::EnableLow => Command::SetEnable { high: false },
            BringUp::Settle1 { waited_ms } => Command::Wait { ms: remaining_ms(waited_ms) },
            BringUp::EnableHigh => Command::SetEnable { high: true },
            BringUp::Settle2 { waited_ms } => Command::Wait { ms: remaining_ms(waited_ms) },
            BringUp::ControllerInit => Command::InitController,
            BringUp::Ready | BringUp::Failed { .. } => Command::Stop,
        }
    }

    /// The state after `e` was reported in this state. An event that does
    /// not belong to the current step (a failure during a wait, time during a
    /// pin drive) leaves the state as it is.
    pub open spec fn step(self, e: Event) -> BringUp {
        match (self, e) {
            (BringUp::EnableLow, Event::Done) => BringUp::Settle1 { waited_ms: 0 },
            (BringUp::EnableLow, Event::Failed) => BringUp::Failed { error: BringUpError::PinDrive },
            (BringUp::Settle1 { waited_ms }, Event::Elapsed { ms }) => if settled(waited_ms, ms) {
                BringUp::EnableHigh
            } else {
                BringUp::Settle1 { waited_ms: (waited_ms + ms) as u32 }
            },
            (BringUp::EnableHigh, Event::Done) => BringUp::Settle2 { waited_ms: 0 },
            (BringUp::EnableHigh, Event::Failed) => BringUp::Failed { error: BringUpError::PinDrive },
            (BringUp::Settle2 { waited_ms }, Event::Elapsed { ms }) => if settled(waited_ms, ms) {
                BringUp::ControllerInit
            } else {
                BringUp::Settle2 { waited_ms: (waited_ms + ms) as u32 }
            },
            (BringUp::ControllerInit, Event::Done) => BringUp::Ready,
            (BringUp::ControllerInit, Event::Failed) => BringUp::Failed {
                error: BringUpError::ControllerInit,
            },
            _ => self,
        }
    }

    /// The state at the start of the sequence: the enable line was set up
    /// low and is driven low once more.
    pub fn start() -> (r: BringUp)
        ensures
            r == BringUp::EnableLow,
    {
        BringUp::EnableLow
    }

    /// What to do in this state.
    pub fn command(&self) -> (r: Command)
        ensures
            r == self.spec_command(),
    {
        match *self {
            BringUp::EnableLow => Command::SetEnable { high: false },
            BringUp::Settle1 { waited_ms } => Command::Wait { ms: remaining(waited_ms) },
            BringUp::EnableHigh => Command::SetEnable { high: true },
            BringUp::Settle2 { waited_ms } => Command::Wait { ms: remaining(waited_ms) },
            BringUp::ControllerInit => Command::InitController,
            BringUp::Ready | BringUp::Failed { .. } => Command::Stop,
        }
    }

    /// The state after the outcome `e` of this state's command.
    pub fn next(self, e: Event) -> (r: BringUp)
        ensures
            r == self.step(e),
    {
        match (self, e) {
            (BringUp::EnableLow, Event::Done) => BringUp::Settle1 { waited_ms: 0 },
            (BringUp::EnableLow, Event::Failed) => BringUp::Failed { error: BringUpError::PinDrive },
            (BringUp::Settle1 { waited_ms }, Event::Elapsed { ms }) => {
                if waited_ms as u64 + ms as u64 >= SETTLE_MS as u64 {
                    BringUp::EnableHigh
                } else {
                    BringUp::Settle1 { waited_ms: waited_ms + ms }
                }
            },
            (BringUp::EnableHigh, Event::Done) => BringUp::Settle2 { waited_ms: 0 },
            (BringUp::EnableHigh, Event::Failed) => BringUp::Failed { error: BringUpError::PinDrive },
            (BringUp::Settle2 { waited_ms }, Event::Elapsed { ms }) => {
                if waited_ms as u64 + ms as u64 >= SETTLE_MS as u64 {
                    BringUp::ControllerInit
                } else {
                    BringUp::Settle2 { waited_ms: waited_ms + ms }
                }
            },
            (BringUp::ControllerInit, Event::Done) => BringUp::Ready,
            (BringUp::ControllerInit, Event::Failed) => BringUp::Failed {
                error: BringUpError::ControllerInit,
            },
            _ => self,
        }
    }

    /// Whether the enable line is high in this state.
    pub fn enable_high(&self) -> (r: bool)
        ensures
            r == self.spec_enable_high(),
    {
        match *self {
            BringUp::Settle2 { .. } | BringUp::ControllerInit | BringUp::Ready => true,
            BringUp::Failed { error } => error == BringUpError::ControllerInit,
            _ => false,
        }
    }

    /// The result of the sequence once it has ended: `Ok` when the panel is
    /// ready, the error when it failed, `None` while it is still running.
    pub fn outcome(&self) -> (r: Option<Result<(), BringUpError>>)
        ensures
            r == match *self {
                BringUp::Ready => Some(Ok(())),
                BringUp::Failed { error } => Some(Err(error)),
                _ => None,
            },
    {
        match *self {
            BringUp::Ready => Some(Ok(())),
            BringUp::Failed { error } => Some(Err(error)),
            _ => None,
        }
    }
}

/// The state reached from `s` once the events `evs` have been reported in
/// turn.
pub open spec fn run(s: BringUp, evs: Seq<Event>) -> BringUp
    decreases evs.len(),
{
    if evs.len() == 0 {
        s
    } else {
        run(s, evs.drop_last()).step(evs.last())
    }
}

/// The milliseconds reported, along the run of `evs` from `s`, while the
/// sequence waited in its first settle stage (`first`) or in its second.
pub open spec fn settle_time(s: BringUp, evs: Seq<Event>, first: bool) -> nat
    decreases evs.len(),
{
    if evs.len() == 0 {
        0
    } else {
        let prev = run(s, evs.drop_last());
        let counted = if first {
            prev is Settle1
        } else {
            prev is Settle2
        };
        settle_time(s, evs.drop_last(), first) + if counted {
            evs.last().elapsed_ms()
        } else {
            0
        }
    }
}

impl BringUp {
    /// The enable line has been driven high: the first wait is over.
    pub open spec fn past_first_settle(self) -> bool {
        ||| self is EnableHigh
        ||| self is Settle2
        ||| self.past_second_settle()
    }

    /// The second wait is over.
    pub open spec fn past_second_settle(self) -> bool {
        ||| self is ControllerInit
        ||| self is Ready
        ||| self == (BringUp::Failed { error: BringUpError::ControllerInit })
    }
}

/// The sequence keeps its fixed order: an event leaves it in the same
/// stage, moves it to the next one, or ends it with an error, and errors
/// arise only at the pin drives and at the controller's initialisation,
/// never during a wait.
pub proof fn lemma_stage_order(s: BringUp, e: Event)
    ensures
        ({
            let t = s.step(e);
            ||| t.rank() == s.rank()
            ||| t.rank() == s.rank() + 1 && !(t is Failed)
            ||| t is Failed && (s is EnableLow || s is EnableHigh || s is ControllerInit)
        }),
{
}

proof fn lemma_settle_accounting(evs: Seq<Event>)
    ensures
        ({
            let t = run(BringUp::EnableLow, evs);
            let first = settle_time(BringUp::EnableLow, evs, true);
            let second = settle_time(BringUp::EnableLow, evs, false);
            &&& t is EnableLow ==> first == 0 && second == 0
            &&& t matches BringUp::Settle1 { waited_ms } ==> first == waited_ms && second == 0
            &&& t is EnableHigh ==> second == 0
            &&& t.past_first_settle() ==> first >= SETTLE_MS
            &&& t matches BringUp::Settle2 { waited_ms } ==> second == waited_ms
            &&& t.past_second_settle() ==> second >= SETTLE_MS
        }),
    decreases evs.len(),
{
    if evs.len() > 0 {
        lemma_settle_accounting(evs.drop_last());
    }
}

/// Started afresh, the sequence drives the enable line high only after the
/// clock has reported at least the settle time in the first wait, and
/// starts the controller only after it has reported at least the settle
/// time in the second.
pub proof fn lemma_settle_times(evs: Seq<Event>)
    ensures
        run(BringUp::EnableLow, evs).past_first_settle() ==> settle_time(
            BringUp::EnableLow,
            evs,
            true,
        ) >= SETTLE_MS,
        run(BringUp::EnableLow, evs).past_second_settle() ==> settle_time(
            BringUp::EnableLow,
            evs,
            false,
        ) >= SETTLE_MS,
{
    lemma_settle_accounting(evs);
}

/// A failed controller initialisation ends the sequence for good with that
/// error, and the enable line is left high: nothing drives it low again.
pub proof fn lemma_init_failure_keeps_power(evs: Seq<Event>)
    ensures
        run(BringUp::ControllerInit.step(Event::Failed), evs) == (BringUp::Failed {
            error: BringUpError::ControllerInit,
        }),
        run(BringUp::ControllerInit.step(Event::Failed), evs).spec_enable_high(),
        run(BringUp::ControllerInit.step(Event::Failed), evs).spec_command() == Command::Stop,
    decreases evs.len(),
{
    if evs.len() > 0 {
        lemma_init_failure_keeps_power(evs.drop_last());
    }
}

fn remaining(waited: u32) -> (r: u32)
    ensures
        r == remaining_ms(waited),
{
    if waited < SETTLE_MS {
        SETTLE_MS - waited
    } else {
        0
    }
}

} // verus!
