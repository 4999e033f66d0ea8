//! Blocking transfer
use vstd::prelude::*;
use crate::blocking::spi::run::{
    exchanges, failed_at, fault_free, gained, gave_up, incoming, lemma_exchanges_grow,
    lemma_exchanges_stay, lemma_gained_push, lemma_gave_up_on_only_fault,
    lemma_went_through_without_fault, went_through,
};
use crate::blocking::spi::{is_send_of, read_blocking, send_blocking, Transfer};
use crate::spi::{Event, FullDuplex};

verus! {

/// Default implementation of `blocking::spi::Transfer<W>` for implementers of
/// `spi::FullDuplex<W>`
pub trait Default<W>: FullDuplex<W> {
}

/// What a transfer does: `events` is what the bus recorded while the buffer
/// went from `given` to `left`, and `received` is what the caller got back.
///
/// A transfer that returns the buffer got through all of the words, and the
/// buffer holds, position by position, the words that came in. A transfer
/// that returns an error gave up on it: the buffer holds the words that came
/// in up to the word that failed, and from there on what it was given.
pub open spec fn transferred<W: Clone, E>(
    given: Seq<W>,
    events: Seq<Event<W, E>>,
    left: Seq<W>,
    received: Result<&[W], E>,
) -> bool {
    match received {
        Ok(slice) => {
            &&& went_through(events, given)
            &&& left == incoming(events, given.len() as int)
            &&& slice@ == left
        },
        Err(error) => {
            &&& gave_up(events, given, error)
            &&& left == incoming(events, failed_at(events)) + given.skip(failed_at(events))
        },
    }
}

impl<W, S> Transfer<W> for S where S: Default<W>, W: Clone {
    type Error = S::Error;

    /// Exchanges the words one after the other, in order: a copy of the word
    /// is sent, then one word is read and stored in its place.
    ///
    /// The first fatal error ends the run and is returned. The words before
    /// the one that failed have been replaced by what came in for them; that
    /// word and those after it are as they were.
    fn transfer<'w>(&mut self, words: &'w mut [W]) -> (received: Result<&'w [W], S::Error>)
        ensures
            old(self).log().is_prefix_of(final(self).log()),
            transferred(
                old(words)@,
                gained(old(self).log(), final(self).log()),
                final(words)@,
                received,
            ),
    {
        let n: usize = words.len();
        let ghost start = self.log();
        let ghost given = words@;
        let mut i: usize = 0;
        while i < n
            invariant
                i <= n,
                n == words@.len(),
                given == old(words)@,
                n == given.len(),
                start == old(self).log(),
                start.is_prefix_of(self.log()),
                gained(start, self.log()).len() == 2 * i,
                exchanges(gained(start, self.log()), given, i as int),
                words@ == incoming(gained(start, self.log()), i as int) + given.skip(i as int),
            decreases n - i,
        {
            let ghost log = self.log();
            let ghost events = gained(start, log);
            let sent = send_blocking(self, &words[i]);
            let ghost send = self.log().last();
            proof {
                lemma_gained_push(start, log, send);
                lemma_exchanges_stay(events, events.push(send), given, i as int);
            }
            match sent {
                Ok(_) => {},
                Err(error) => {
                    return Err(error);
                },
            }
            let read = read_blocking(self);
            let ghost reply = self.log().last();
            proof {
                lemma_gained_push(start, log.push(send), reply);
                lemma_exchanges_stay(events, events.push(send).push(reply), given, i as int);
            }
            match read {
                Ok(word) => {
                    words[i] = word;
                    proof {
                        lemma_exchanges_grow(events, given, i as int, send, reply);
                        assert(words@ =~= incoming(events.push(send).push(reply), i + 1)
                            + given.skip(i + 1));
                    }
                },
                Err(error) => {
                    return Err(error);
                },
            }
            i = i + 1;
        }
        assert(words@ =~= incoming(gained(start, self.log()), n as int));
        Ok(words)
    }
}

/// If the bus reports no fault during a transfer, the transfer succeeds and
/// returns the buffer, as long as it was given, holding the exchanged words
/// in order: at each position the word that came in right after a copy of
/// the word given at that position had gone out.
pub proof fn lemma_transfer_without_fault<W: Clone, E>(
    given: Seq<W>,
    events: Seq<Event<W, E>>,
    left: Seq<W>,
    received: Result<&[W], E>,
)
    requires
        transferred(given, events, left, received),
        fault_free(events),
    ensures
        received matches Ok(slice) && slice@ == left,
        left.len() == given.len(),
        events.len() == 2 * given.len(),
        forall|i: int|
            0 <= i < given.len() ==> {
                &&& is_send_of(events[2 * i], #[trigger] given[i])
                &&& events[2 * i + 1] == Event::<W, E>::Received(left[i])
            },
{
    if received is Err {
        assert(events.last() is Fault);
    }
}

/// If the bus reports a fault during a transfer, at the word with index `at`,
/// the transfer returns that fault as its error and does nothing more: the
/// fault is the last event on record. The buffer is as long as it was given
/// and holds before `at` the words that came in, position by position, and
/// from `at` on the words it was given.
pub proof fn lemma_transfer_with_fault<W: Clone, E>(
    given: Seq<W>,
    events: Seq<Event<W, E>>,
    left: Seq<W>,
    received: Result<&[W], E>,
    k: int,
    error: E,
)
    requires
        transferred(given, events, left, received),
        0 <= k < events.len(),
        events[k] == Event::<W, E>::Fault(error),
    ensures
        received == Err::<&[W], E>(error),
        k == events.len() - 1,
        ({
            let at = failed_at(events);
            &&& 0 <= at < given.len()
            &&& at == k / 2
            &&& left.len() == given.len()
            &&& forall|j: int|
                0 <= j < at ==> events[2 * j + 1] == Event::<W, E>::Received(#[trigger] left[j])
            &&& forall|j: int| at <= j < given.len() ==> #[trigger] left[j] == given[j]
        }),
{
    match received {
        Ok(_) => {
            lemma_went_through_without_fault(events, given);
        },
        Err(other) => {
            lemma_gave_up_on_only_fault(events, given, other, k);
            let at = failed_at(events);
            assert forall|j: int| 0 <= j < at implies events[2 * j + 1] == Event::<
                W,
                E,
            >::Received(#[trigger] left[j]) by {
                assert(is_send_of(events[2 * j], given[j]));
            }
        },
    }
}

} // verus!
