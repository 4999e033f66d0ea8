//! What a run over a sequence of words leaves in the log of a bus
//!
//! A run takes the words in order. For each it sends a copy of the word and
//! then reads one word, so a run that gets through `count` words adds
//! `2 * count` events to the log: the event at `2 * i` is the send for word
//! `i`, the event at `2 * i + 1` the receipt that answers it. The first fault
//! ends a run on the spot.
use vstd::prelude::*;
use crate::blocking::spi::is_send_of;
use crate::spi::Event;

verus! {

/// What a log that read `before` has gained by the time it reads `after`.
pub open spec fn gained<W, E>(before: Seq<Event<W, E>>, after: Seq<Event<W, E>>) -> Seq<
    Event<W, E>,
> {
    after.skip(before.len() as int)
}

/// `events` begins with the exchange of the first `count` of `words`, one
/// after the other: for each of them the send of a copy of the word, directly
/// followed by the receipt of a word.
pub open spec fn exchanges<W: Clone, E>(events: Seq<Event<W, E>>, words: Seq<W>, count: int) -> bool {
    &&& 0 <= count <= words.len()
    &&& 2 * count <= events.len()
    &&& forall|i: int|
        0 <= i < count ==> {
            &&& is_send_of(events[2 * i], #[trigger] words[i])
            &&& events[2 * i + 1] is Received
        }
}

/// The words that came in during the first `count` exchanges of `events`.
pub open spec fn incoming<W, E>(events: Seq<Event<W, E>>, count: int) -> Seq<W> {
    Seq::new(count as nat, |i: int| events[2 * i + 1]->Received_0)
}

/// `events` is the whole record of a run that got through all of `words`.
pub open spec fn went_through<W: Clone, E>(events: Seq<Event<W, E>>, words: Seq<W>) -> bool {
    &&& events.len() == 2 * words.len()
    &&& exchanges(events, words, words.len() as int)
}

/// The index of the word at which a run that recorded `events`, the last of
/// them a fault, gave up.
pub open spec fn failed_at<W, E>(events: Seq<Event<W, E>>) -> int {
    (events.len() - 1) / 2
}

/// `events` is the whole record of a run over `words` that gave up with
/// `error`: every word before the one at `failed_at(events)` was exchanged,
/// then either the send of that word failed, or it was sent and the read
/// after it failed. Nothing happened after the fault.
pub open spec fn gave_up<W: Clone, E>(events: Seq<Event<W, E>>, words: Seq<W>, error: E) -> bool {
    let at = failed_at(events);
    &&& events.len() > 0
    &&& at < words.len()
    &&& exchanges(events, words, at)
    &&& events.last() == Event::<W, E>::Fault(error)
    &&& events.len() == 2 * at + 2 ==> is_send_of(events[2 * at], words[at])
}

/// The bus reported no fault in `events`.
pub open spec fn fault_free<W, E>(events: Seq<Event<W, E>>) -> bool {
    forall|k: int| 0 <= k < events.len() ==> !(#[trigger] events[k] is Fault)
}

/// A log that grows keeps what it had gained and gains the new event.
pub proof fn lemma_gained_push<W, E>(
    before: Seq<Event<W, E>>,
    now: Seq<Event<W, E>>,
    event: Event<W, E>,
)
    requires
        before.is_prefix_of(now),
    ensures
        before.is_prefix_of(now.push(event)),
        gained(before, now.push(event)) == gained(before, now).push(event),
{
    assert(gained(before, now.push(event)) =~= gained(before, now).push(event));
}

/// Exchanges that have happened stay on record, with the words that came in,
/// whatever follows them.
pub proof fn lemma_exchanges_stay<W: Clone, E>(
    events: Seq<Event<W, E>>,
    longer: Seq<Event<W, E>>,
    words: Seq<W>,
    count: int,
)
    requires
        exchanges(events, words, count),
        events.is_prefix_of(longer),
    ensures
        exchanges(longer, words, count),
        incoming(longer, count) == incoming(events, count),
{
    let kept = longer.subrange(0, events.len() as int);
    assert forall|i: int| 0 <= i < count implies {
        &&& is_send_of(longer[2 * i], #[trigger] words[i])
        &&& longer[2 * i + 1] is Received
    } by {
        assert(is_send_of(events[2 * i], words[i]));
        assert(kept[2 * i] == longer[2 * i]);
        assert(kept[2 * i + 1] == longer[2 * i + 1]);
    }
    assert forall|i: int| 0 <= i < count implies #[trigger] incoming(longer, count)[i] == incoming(
        events,
        count,
    )[i] by {
        assert(kept[2 * i + 1] == longer[2 * i + 1]);
    }
    assert(incoming(longer, count) =~= incoming(events, count));
}

/// One more send and receipt, for the next word, is one more exchange.
pub proof fn lemma_exchanges_grow<W: Clone, E>(
    events: Seq<Event<W, E>>,
    words: Seq<W>,
    count: int,
    send: Event<W, E>,
    receipt: Event<W, E>,
)
    requires
        exchanges(events, words, count),
        events.len() == 2 * count,
        count < words.len(),
        is_send_of(send, words[count]),
        receipt is Received,
    ensures
        exchanges(events.push(send).push(receipt), words, count + 1),
        incoming(events.push(send).push(receipt), count + 1) == incoming(events, count).push(
            receipt->Received_0,
        ),
{
    let longer = events.push(send).push(receipt);
    assert forall|i: int| 0 <= i < count + 1 implies {
        &&& is_send_of(longer[2 * i], #[trigger] words[i])
        &&& longer[2 * i + 1] is Received
    } by {
        if i < count {
            assert(longer[2 * i] == events[2 * i]);
            assert(longer[2 * i + 1] == events[2 * i + 1]);
        }
    }
    assert(incoming(longer, count + 1) =~= incoming(events, count).push(receipt->Received_0));
}

/// A run that got through all of its words met no fault.
pub proof fn lemma_went_through_without_fault<W: Clone, E>(
    events: Seq<Event<W, E>>,
    words: Seq<W>,
)
    requires
        went_through(events, words),
    ensures
        fault_free(events),
{
    assert forall|k: int| 0 <= k < events.len() implies !(#[trigger] events[k] is Fault) by {
        let i = k / 2;
        assert(is_send_of(events[2 * i], words[i]));
        assert(k == 2 * i || k == 2 * i + 1);
    }
}

/// A run that gave up met exactly one fault: the one it ended on.
pub proof fn lemma_gave_up_on_only_fault<W: Clone, E>(
    events: Seq<Event<W, E>>,
    words: Seq<W>,
    error: E,
    k: int,
)
    requires
        gave_up(events, words, error),
        0 <= k < events.len(),
        events[k] is Fault,
    ensures
        k == events.len() - 1,
        events[k] == Event::<W, E>::Fault(error),
{
    let at = failed_at(events);
    if k < 2 * at {
        let i = k / 2;
        assert(is_send_of(events[2 * i], words[i]));
        assert(k == 2 * i || k == 2 * i + 1);
    }
}

} // verus!
