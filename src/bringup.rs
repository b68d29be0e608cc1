use vstd::prelude::*;

verus! {

/// One step of bringing the display link up.
#[derive(Clone, Copy, Debug, PartialEq, Eq, Structural)]
pub enum BringupStep {
    /// Program the PHY timers.
    ConfigurePhy,
    /// Start the DSI link.
    StartLink,
    /// Enable bus turnaround, needed before any read transaction.
    EnableBusTurnaround,
    /// Force the receive path into low-power mode.
    ForceRxLowPower,
    /// Arm the periodic frame-swap timer.
    ArmSwapTimer,
}

/// Number of bring-up steps.
pub const BRINGUP_STEPS: usize = 5;

/// The bring-up steps in the order they must be taken; each one is a
/// precondition of the next.
pub open spec fn bringup_order() -> Seq<BringupStep> {
    seq![
        BringupStep::ConfigurePhy,
        BringupStep::StartLink,
        BringupStep::EnableBusTurnaround,
        BringupStep::ForceRxLowPower,
        BringupStep::ArmSwapTimer,
    ]
}

/// A step was reported out of order, or after bring-up was done.
#[derive(Clone, Copy, Debug, PartialEq, Eq, Structural)]
pub enum BringupError {
    OutOfOrder,
}

/// Tracks how far bring-up has gone.
pub struct Bringup {
    done: usize,
}

impl Bringup {
    #[verifier::type_invariant]
    spec fn done_in_range(self) -> bool {
        self.done <= BRINGUP_STEPS
    }

    /// How many steps have been taken.
    pub closed spec fn completed(&self) -> nat {
        self.done as nat
    }

    /// Nothing done yet.
    pub fn new() -> (r: Bringup)
        ensures
            r.completed() == 0,
    {
        Bringup { done: 0 }
    }

    /// The step to take now; `None` once bring-up is done.
    pub fn next_step(&self) -> (r: Option<BringupStep>)
        ensures
            self.completed() <= BRINGUP_STEPS,
            self.completed() < BRINGUP_STEPS ==> r == Some(bringup_order()[self.completed() as int]),
            self.completed() == BRINGUP_STEPS ==> r is None,
    {
        proof {
            use_type_invariant(self);
        }
        match self.done {
            0 => Some(BringupStep::ConfigurePhy),
            1 => Some(BringupStep::StartLink),
            2 => Some(BringupStep::EnableBusTurnaround),
            3 => Some(BringupStep::ForceRxLowPower),
            4 => Some(BringupStep::ArmSwapTimer),
            _ => None,
        }
    }

    /// Record that `step` was taken. It is accepted only when it is the
    /// step due now; otherwise nothing changes.
    pub fn complete(&mut self, step: BringupStep) -> (r: Result<(), BringupError>)
        ensures
            r is Ok <==> old(self).completed() < BRINGUP_STEPS && step == bringup_order()[old(
                self,
            ).completed() as int],
            r is Ok ==> final(self).completed() == old(self).completed() + 1,
            r is Err ==> r == Err::<(), _>(BringupError::OutOfOrder) && final(self).completed()
                == old(self).completed(),
    {
        match self.next_step() {
            Some(due) => {
                if due == step {
                    *self = Bringup { done: self.done + 1 };
                    Ok(())
                } else {
                    Err(BringupError::OutOfOrder)
                }
            },
            None => Err(BringupError::OutOfOrder),
        }
    }

    /// Whether frame swaps may be requested: only once every step,
    /// the swap timer last, has been taken.
    pub fn swap_allowed(&self) -> (r: bool)
        ensures
            r == (self.completed() == BRINGUP_STEPS),
    {
        proof {
            use_type_invariant(self);
        }
        self.done == BRINGUP_STEPS
    }
}

} // verus!
