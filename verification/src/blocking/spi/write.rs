//! Blocking write
use vstd::prelude::*;
use crate::blocking::spi::run::{
    exchanges, fault_free, gained, gave_up, lemma_exchanges_grow, lemma_exchanges_stay,
    lemma_gained_push, lemma_gave_up_on_only_fault, lemma_went_through_without_fault,
    went_through,
};
use crate::blocking::spi::{read_blocking, send_blocking, Write};
use crate::spi::{Event, FullDuplex};

verus! {

/// Default implementation of `blocking::spi::Write<W>` for implementers of
/// `spi::FullDuplex<W>`
pub trait Default<W>: FullDuplex<W> {
}

/// What a write does: `events` is what the bus recorded while `words` were
/// written, and `done` is what the caller got back.
///
/// A write that succeeds got through all of the words; one that returns an
/// error gave up on it.
pub open spec fn written<W: Clone, E>(
    words: Seq<W>,
    events: Seq<Event<W, E>>,
    done: Result<(), E>,
) -> bool {
    match done {
        Ok(_) => went_through(events, words),
        Err(error) => gave_up(events, words, error),
    }
}

impl<W, S> Write<W> for S where S: Default<W>, W: Clone {
    type Error = S::Error;

    /// Exchanges the words one after the other, in order: a copy of the word
    /// is sent, then one word is read and dropped, which keeps the bus in
    /// step.
    ///
    /// The first fatal error ends the run and is returned.
    fn write(&mut self, words: &[W]) -> (done: Result<(), S::Error>)
        ensures
            old(self).log().is_prefix_of(final(self).log()),
            written(words@, gained(old(self).log(), final(self).log()), done),
    {
        let n: usize = words.len();
        let ghost start = self.log();
        let mut i: usize = 0;
        while i < n
            invariant
                i <= n,
                n == words@.len(),
                start == old(self).log(),
                start.is_prefix_of(self.log()),
                gained(start, self.log()).len() == 2 * i,
                exchanges(gained(start, self.log()), words@, i as int),
            decreases n - i,
        {
            let ghost log = self.log();
            let ghost events = gained(start, log);
            let sent = send_blocking(self, &words[i]);
            let ghost send = self.log().last();
            proof {
                lemma_gained_push(start, log, send);
                lemma_exchanges_stay(events, events.push(send), words@, i as int);
            }
            match sent {
                Ok(_) => {},
                Err(error) => {
                    return Err(error);
                },
            }
            let read = read_blocking(self);
            let ghost reply = self.log().last();
            proof {
                lemma_gained_push(start, log.push(send), reply);
                lemma_exchanges_stay(events, events.push(send).push(reply), words@, i as int);
            }
            match read {
                Ok(_) => {
                    proof {
                        lemma_exchanges_grow(events, words@, i as int, send, reply);
                    }
                },
                Err(error) => {
                    return Err(error);
                },
            }
            i = i + 1;
        }
        Ok(())
    }
}

/// A write succeeds exactly when the bus reports no fault while it runs, and
/// otherwise returns the one fault that the bus reported.
pub proof fn lemma_write_fails_on_fault_only<W: Clone, E>(
    words: Seq<W>,
    events: Seq<Event<W, E>>,
    done: Result<(), E>,
)
    requires
        written(words, events, done),
    ensures
        done is Ok <==> fault_free(events),
        forall|k: int|
            0 <= k < events.len() && #[trigger] events[k] is Fault ==> done == Err::<(), E>(
                events[k]->Fault_0,
            ),
{
    match done {
        Ok(_) => {
            lemma_went_through_without_fault(events, words);
        },
        Err(error) => {
            assert(events.last() is Fault);
            assert forall|k: int|
                0 <= k < events.len() && #[trigger] events[k] is Fault implies done == Err::<
                (),
                E,
            >(events[k]->Fault_0) by {
                lemma_gave_up_on_only_fault(events, words, error, k);
            }
        },
    }
}

} // verus!
