//! If you can read **and** write the output state, a pin is
//! toggleable by software.
//!
//! A pin opts in by implementing [`Default`], which takes a proof that the
//! drive mode the pin reports is the one it was last told to take.
use vstd::prelude::*;
use crate::digital::{OutputPin, StatefulOutputPin, ToggleableOutputPin};

verus! {

/// Software-driven `toggle()` implementation.
pub trait Default: OutputPin + StatefulOutputPin {
    /// Once the pin has been told what to drive, the mode it reports is the
    /// one it was last told to take.
    proof fn reports_last_command(&self)
        ensures
            self.commands().len() > 0 ==> self.set_high_state() == self.commands().last(),
    ;
}

/// What the software toggle does to a pin: `after` is `before` told, once,
/// to take the drive mode that `before` did not report, and reporting it.
pub open spec fn flipped<P: Default>(before: P, after: P) -> bool {
    &&& after.commands() == before.commands().push(!before.set_high_state())
    &&& after.set_high_state() == !before.set_high_state()
}

impl<P> ToggleableOutputPin for P where P: Default {
    /// The output of such a pin is the drive mode it reports.
    open spec fn output_high(&self) -> bool {
        self.set_high_state()
    }

    /// Toggle pin output
    ///
    /// Asks the pin whether it is set low and tells it, once, to take the
    /// other mode: the pin passes through no third state on the way. The
    /// answer is taken at its word. A pin whose two queries do not give
    /// opposite answers breaks the contract of `StatefulOutputPin`, and
    /// nothing is promised of it.
    fn toggle(&mut self)
        ensures
            flipped(*old(self), *final(self)),
    {
        if self.is_set_low() {
            self.set_high();
        } else {
            self.set_low();
        }
        proof {
            self.reports_last_command();
        }
    }
}

/// A single toggle turns each answer of the pin into the other: a pin that
/// was set low is set high afterwards, and a pin that was set high is set
/// low.
pub proof fn lemma_toggle_flips<P: Default>(before: P, after: P)
    requires
        flipped(before, after),
    ensures
        !before.set_high_state() ==> after.set_high_state(),
        before.set_high_state() ==> !after.set_high_state(),
{
}

/// Two toggles in a row bring the pin back to the drive mode it reported
/// before the first, by way of the other mode and of nothing else.
pub proof fn lemma_toggle_twice_restores<P: Default>(start: P, once: P, twice: P)
    requires
        flipped(start, once),
        flipped(once, twice),
    ensures
        twice.set_high_state() == start.set_high_state(),
        twice.commands() == start.commands().push(!start.set_high_state()).push(
            start.set_high_state(),
        ),
{
}

} // verus!
