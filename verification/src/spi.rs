//! Serial Peripheral Interface
use vstd::prelude::*;
use crate::nb;

verus! {

/// One thing that happened on a bus
pub enum Event<W, E> {
    /// The word went out to the slave
    Sent(W),
    /// The word came in from the slave
    Received(W),
    /// An operation failed with the fatal error
    Fault(E),
}

/// Full duplex (master mode)
///
/// # Notes
///
/// - It's the task of the user of this interface to manage the slave select
///   lines.
///
/// - Due to how full duplex SPI works each `send` call must be followed by a
///   `read` call, even if the word read is of no interest.
///
/// - Both operations are non-blocking: when the bus is not ready they answer
///   [`nb::Error::WouldBlock`], change nothing, and expect to be tried again.
///
/// # Model
///
/// A bus is described by the record of what has happened on it, `log`, and by
/// `busy_bound`, a bound on how long it can keep its user waiting. The bound
/// is what lets a caller wait for the bus in a loop that is known to end: a
/// bus that may stay busy for ever cannot be given one, and so cannot honour
/// this interface.
pub trait FullDuplex<W> {
    /// An enumeration of SPI errors
    type Error;

    /// Everything that has happened on the bus so far, oldest first.
    ///
    /// Attempts that would have blocked leave no trace.
    spec fn log(&self) -> Seq<Event<W, Self::Error>>;

    /// How many more attempts, at most, the bus can answer with
    /// [`nb::Error::WouldBlock`] before one of them finishes.
    ///
    /// The bound only has to go down while the bus keeps its user waiting;
    /// whenever an operation finishes, for better or worse, the bus is free
    /// to pick a new one.
    spec fn busy_bound(&self) -> nat;

    /// Reads the word stored in the shift register
    ///
    /// **NOTE** A word must be sent to the slave before attempting to call
    /// this method.
    fn read(&mut self) -> (attempt: Result<W, nb::Error<Self::Error>>)
        ensures
            match attempt {
                Ok(word) => final(self).log() == old(self).log().push(Event::Received(word)),
                Err(nb::Error::Other(error)) => final(self).log() == old(self).log().push(
                    Event::Fault(error),
                ),
                Err(nb::Error::WouldBlock) => {
                    &&& final(self).log() == old(self).log()
                    &&& final(self).busy_bound() < old(self).busy_bound()
                },
            },
    ;

    /// Sends a word to the slave
    fn send(&mut self, word: W) -> (attempt: Result<(), nb::Error<Self::Error>>)
        ensures
            match attempt {
                Ok(_) => final(self).log() == old(self).log().push(Event::Sent(word)),
                Err(nb::Error::Other(error)) => final(self).log() == old(self).log().push(
                    Event::Fault(error),
                ),
                Err(nb::Error::WouldBlock) => {
                    &&& final(self).log() == old(self).log()
                    &&& final(self).busy_bound() < old(self).busy_bound()
                },
            },
    ;
}

} // verus!
