//! Digital I/O
//!
//! Each output interface describes the pin by a ghost model of its own. A
//! model speaks of what the pin has been told to do and of what it reports
//! about that: it is never a claim about the voltage on the wire.
use vstd::prelude::*;

pub mod toggleable;

verus! {

/// Single digital push-pull output pin
pub trait OutputPin {
    /// The levels the pin has been told to drive so far, oldest first: `true`
    /// for high, `false` for low.
    spec fn commands(&self) -> Seq<bool>;

    /// Drives the pin low
    ///
    /// *NOTE* the actual electrical state of the pin may not actually be low, e.g. due to external
    /// electrical sources
    fn set_low(&mut self)
        ensures
            final(self).commands() == old(self).commands().push(false),
    ;

    /// Drives the pin high
    ///
    /// *NOTE* the actual electrical state of the pin may not actually be high, e.g. due to external
    /// electrical sources
    fn set_high(&mut self)
        ensures
            final(self).commands() == old(self).commands().push(true),
    ;
}

/// Push-pull output pin that can read its output state
///
/// The pin is in exactly one of the two drive modes at any time: the two
/// queries always give opposite answers.
pub trait StatefulOutputPin {
    /// Whether the pin reports that it is in drive high mode.
    spec fn set_high_state(&self) -> bool;

    /// Is the pin in drive high mode?
    ///
    /// *NOTE* this does *not* read the electrical state of the pin
    fn is_set_high(&self) -> (high: bool)
        ensures
            high == self.set_high_state(),
    ;

    /// Is the pin in drive low mode?
    ///
    /// *NOTE* this does *not* read the electrical state of the pin
    fn is_set_low(&self) -> (low: bool)
        ensures
            low == !self.set_high_state(),
    ;
}

/// Output pin that can be toggled
///
/// See [toggleable](toggleable) to use a software implementation if
/// both [OutputPin](trait.OutputPin.html) and
/// [StatefulOutputPin](trait.StatefulOutputPin.html) are
/// implemented. Otherwise, implement this using hardware mechanisms.
pub trait ToggleableOutputPin {
    /// Whether the output is set high.
    spec fn output_high(&self) -> bool;

    /// Toggle pin output.
    fn toggle(&mut self)
        ensures
            final(self).output_high() == !old(self).output_high(),
    ;
}

/// What one `toggle` does to a pin: `after` is `before` with its output
/// flipped.
pub open spec fn toggled<P: ToggleableOutputPin>(before: P, after: P) -> bool {
    after.output_high() == !before.output_high()
}

/// Toggling a pin twice leaves its output where it was.
pub proof fn lemma_toggle_twice<P: ToggleableOutputPin>(start: P, once: P, twice: P)
    requires
        toggled(start, once),
        toggled(once, twice),
    ensures
        twice.output_high() == start.output_high(),
{
}

/// Single digital input pin
///
/// A query samples the pin, and what it finds is up to the world outside the
/// program: nothing is promised of an answer. `is_high` and `is_low` give
/// opposite answers about one sample, but two calls take two samples, and the
/// input may have changed between them.
pub trait InputPin {
    /// Is the input pin high?
    fn is_high(&self) -> bool;

    /// Is the input pin low?
    fn is_low(&self) -> bool;
}

} // verus!
