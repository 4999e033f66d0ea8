//! Blocking SPI API
//!
//! The two interfaces, [`Transfer`] and [`Write`], move a whole sequence of
//! words and return when it is done. A bus that can only move one word at a
//! time without waiting, a [`FullDuplex`], gets both from the bridges in
//! [`transfer`] and [`write`](self::write), which are built on the two
//! single-word operations of this module. What a bridge leaves in the log of
//! the bus is described in [`run`].
use vstd::prelude::*;
use crate::nb;
use crate::spi::{Event, FullDuplex};

pub mod run;
pub mod transfer;
pub mod write;

verus! {

/// Blocking transfer
pub trait Transfer<W> {
    /// Error type
    type Error;

    /// Sends `words` to the slave. Returns the `words` received from the slave
    fn transfer<'w>(&mut self, words: &'w mut [W]) -> (received: Result<&'w [W], Self::Error>)
        ensures
            final(words)@.len() == old(words)@.len(),
            received matches Ok(slice) ==> slice@ == final(words)@,
    ;
}

/// Blocking write
pub trait Write<W> {
    /// Error type
    type Error;

    /// Sends `words` to the slave, ignoring all the incoming words
    fn write(&mut self, words: &[W]) -> (done: Result<(), Self::Error>)
    ;
}

/// `event` records that a copy of `word` went out on the bus.
pub open spec fn is_send_of<W: Clone, E>(event: Event<W, E>, word: W) -> bool {
    event matches Event::Sent(copy) && cloned(word, copy)
}

/// Sends a copy of `word`, trying again for as long as the bus would block.
///
/// Returns once the bus has taken the word or has failed for good, and never
/// pauses between two attempts. Either way exactly one event is added to the
/// log: the send of a copy of `word`, or the fault that is returned.
pub fn send_blocking<W: Clone, S: FullDuplex<W>>(bus: &mut S, word: &W) -> (sent: Result<
    (),
    S::Error,
>)
    ensures
        final(bus).log() == old(bus).log().push(final(bus).log().last()),
        match sent {
            Ok(_) => is_send_of(final(bus).log().last(), *word),
            Err(error) => final(bus).log().last() == Event::<W, S::Error>::Fault(error),
        },
{
    loop
        invariant
            bus.log() == old(bus).log(),
        decreases bus.busy_bound(),
    {
        match nb::ready(bus.send(word.clone())) {
            Some(sent) => {
                return sent;
            },
            None => {},
        }
    }
}

/// Reads one word, trying again for as long as the bus would block.
///
/// Returns once the bus has delivered a word or has failed for good, and
/// never pauses between two attempts. Either way exactly one event is added
/// to the log: the receipt of the word that is returned, or the fault that is
/// returned.
pub fn read_blocking<W, S: FullDuplex<W>>(bus: &mut S) -> (read: Result<W, S::Error>)
    ensures
        final(bus).log() == old(bus).log().push(
            match read {
                Ok(word) => Event::Received(word),
                Err(error) => Event::Fault(error),
            },
        ),
{
    loop
        invariant
            bus.log() == old(bus).log(),
        decreases bus.busy_bound(),
    {
        match nb::ready(bus.read()) {
            Some(read) => {
                return read;
            },
            None => {},
        }
    }
}

} // verus!
