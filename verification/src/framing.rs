//! Framing controller: the chip-select discipline around each transfer.
//!
//! The controller owns the logical state of the chip-select line. A
//! frame opens when the line is driven low and closes when the line is
//! confirmed high again. Driving the line is the shell's job; the
//! controller takes the reported result of each drive or read and
//! decides what follows: a failed assertion silently skips the
//! iteration's transfer, and deassertion is re-commanded until the
//! observed level confirms it, however long that takes.

use vstd::prelude::*;

verus! {

/// Electrical level of the chip-select line. The line is active-low:
/// `Low` means asserted (a frame is open), `High` means deasserted.
#[derive(Clone, Copy, Debug, PartialEq, Eq, Structural)]
pub enum LineLevel {
    Low,
    High,
}

/// The controller's view of the frame: no frame open, or a frame open.
#[derive(Clone, Copy, Debug, PartialEq, Eq, Structural)]
pub enum FramingState {
    Idle,
    Active,
}

/// State machine delimiting one transaction on the bus. Frames are
/// strictly sequential: a new frame cannot open before the previous
/// one is confirmed closed.
#[derive(Clone, Copy, Debug, PartialEq, Eq, Structural)]
pub struct FramingController {
    pub state: FramingState,
}

/// Every level in the observation sequence is `Low`: the line was
/// never seen deasserted.
pub open spec fn all_low(obs: Seq<LineLevel>) -> bool {
    forall|j: int| 0 <= j < obs.len() ==> obs[j] == LineLevel::Low
}

impl FramingController {
    /// A fresh controller with no frame open.
    pub fn new() -> (c: Self)
        ensures
            c.state == FramingState::Idle,
    {
        FramingController { state: FramingState::Idle }
    }

    /// Open a frame. `drive_ok` is the reported result of driving the
    /// line low. On success the frame is open and the transfer may
    /// proceed; on failure the controller stays idle and the caller
    /// must skip the transfer — best effort, no retry.
    pub fn begin(&mut self, drive_ok: bool) -> (proceed: bool)
        requires
            old(self).state == FramingState::Idle,
        ensures
            proceed == drive_ok,
            final(self).state == (if drive_ok {
                FramingState::Active
            } else {
                FramingState::Idle
            }),
    {
        if drive_ok {
            self.state = FramingState::Active;
        }
        drive_ok
    }

    /// One step of closing the frame: the line has just been commanded
    /// high and `observed` is the level read back. The frame is closed
    /// exactly when the line is observed deasserted; otherwise the
    /// caller must command deassertion again.
    pub fn end_step(&mut self, observed: LineLevel) -> (done: bool)
        requires
            old(self).state == FramingState::Active,
        ensures
            done == (observed == LineLevel::High),
            final(self).state == (if done {
                FramingState::Idle
            } else {
                FramingState::Active
            }),
    {
        if observed == LineLevel::High {
            self.state = FramingState::Idle;
            true
        } else {
            false
        }
    }
}

/// Close the frame against a sequence of observed line levels, one per
/// deassert command issued. The loop returns at the first observation
/// of a deasserted line and never earlier, no matter how many deassert
/// commands that takes; if every observation still shows the line
/// asserted, the frame stays open (with real hardware the program
/// spins forever — there is no timeout).
///
/// Returns the number of observations consumed before confirmation,
/// which is also the index of the first deasserted level.
pub fn run_end(ctrl: &mut FramingController, observations: &Vec<LineLevel>) -> (r: Option<usize>)
    requires
        old(ctrl).state == FramingState::Active,
    ensures
        match r {
            Some(i) => {
                &&& i < observations.len()
                &&& observations@[i as int] == LineLevel::High
                &&& forall|j: int| 0 <= j < i ==> observations@[j] == LineLevel::Low
                &&& final(ctrl).state == FramingState::Idle
            },
            None => {
                &&& all_low(observations@)
                &&& final(ctrl).state == FramingState::Active
            },
        },
        r is Some <==> !all_low(observations@),
{
    let n = observations.len();
    let mut i: usize = 0;
    while i < n
        invariant
            i <= n,
            n == observations.len(),
            ctrl.state == FramingState::Active,
            forall|j: int| 0 <= j < i ==> observations@[j] == LineLevel::Low,
        decreases n - i,
    {
        let observed = observations[i];
        if ctrl.end_step(observed) {
            return Some(i);
        }
        i += 1;
    }
    None
}

} // verus!
