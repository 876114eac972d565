//! Properties of the hooks over whole runs of events.
use crate::coordinator::{bruteforcing, broadcasts, next_state, Event};
use crate::protocol::{bruteforcing_update, discovery, WsMessage, WsMessageType};
use crate::registry::{bruteforcing_ids, User};
use vstd::prelude::*;

verus! {

/// The registry after a run of events from an empty one.
pub open spec fn run(evs: Seq<Event>) -> Map<u32, User>
    decreases evs.len(),
{
    if evs.len() == 0 {
        Map::empty()
    } else {
        next_state(run(evs.drop_last()), evs.last())
    }
}

/// How many connections a run opens.
pub open spec fn opens(evs: Seq<Event>) -> nat
    decreases evs.len(),
{
    if evs.len() == 0 {
        0
    } else {
        opens(evs.drop_last()) + if evs.last() is Open {
            1nat
        } else {
            0nat
        }
    }
}

/// Whether `e` closes, or fails, a connection that is open in `m`.
pub open spec fn ends_open(m: Map<u32, User>, e: Event) -> bool {
    match e {
        Event::Close(id) => m.contains_key(id),
        Event::Error(id) => m.contains_key(id),
        _ => false,
    }
}

/// How many closes and failures of a run find their connection open.
pub open spec fn applied_ends(evs: Seq<Event>) -> nat
    decreases evs.len(),
{
    if evs.len() == 0 {
        0
    } else {
        applied_ends(evs.drop_last()) + if ends_open(run(evs.drop_last()), evs.last()) {
            1nat
        } else {
            0nat
        }
    }
}

/// Every open of the run names a connection that is not open at that point.
pub open spec fn opens_fresh(evs: Seq<Event>) -> bool {
    forall|i: int|
        0 <= i < evs.len() && #[trigger] evs[i] is Open ==> !run(evs.take(i)).contains_key(
            evs[i]->Open_0,
        )
}

/// Counting the open connections: after any run whose opens use ids not open
/// at the time, the registry holds as many connections as were opened, less
/// the closes and failures that found their connection open. A repeated close
/// of one id is not counted twice, and the count never goes below zero.
pub proof fn lemma_watching_tracks_lifecycle(evs: Seq<Event>)
    requires
        opens_fresh(evs),
    ensures
        run(evs).dom().finite(),
        run(evs).len() + applied_ends(evs) == opens(evs),
    decreases evs.len(),
{
    if evs.len() > 0 {
        let prev = evs.drop_last();
        let i = evs.len() - 1;
        assert forall|j: int| 0 <= j < prev.len() && #[trigger] prev[j] is Open implies !run(
            prev.take(j),
        ).contains_key(prev[j]->Open_0) by {
            assert(prev.take(j) =~= evs.take(j));
            assert(prev[j] == evs[j]);
        }
        lemma_watching_tracks_lifecycle(prev);
        let m = run(prev);
        assert(evs.take(i) =~= prev);
        match evs.last() {
            Event::Open(id) => {
                assert(evs[i] is Open);
                assert(!m.contains_key(id));
                assert(run(evs).dom() =~= m.dom().insert(id));
            },
            Event::Close(id) => {
                assert(run(evs).dom() =~= m.dom().remove(id));
            },
            Event::Error(id) => {
                assert(run(evs).dom() =~= m.dom().remove(id));
            },
            Event::Message(id, msg) => {
                assert(run(evs).dom() =~= m.dom());
            },
        }
    }
}

/// A second close (or failure) of the same connection changes nothing and
/// reports the same counters as the first.
pub proof fn lemma_repeated_end(m: Map<u32, User>, id: u32, first: Event, second: Event)
    requires
        first == Event::Close(id) || first == Event::Error(id),
        second == Event::Close(id) || second == Event::Error(id),
    ensures
        next_state(next_state(m, first), second) == next_state(m, first),
        broadcasts(next_state(m, first), second) == broadcasts(m, first),
{
    assert(next_state(next_state(m, first), second) =~= next_state(m, first));
}

/// However many connections are open, no more of them are flagged as probing.
pub proof fn lemma_bruteforcing_within_watching(m: Map<u32, User>)
    requires
        m.dom().finite(),
    ensures
        bruteforcing(m) <= m.len(),
{
    vstd::set_lib::lemma_len_subset(bruteforcing_ids(m), m.dom());
}

/// A `Stop` from a connection that is not open changes nothing and is not
/// answered.
pub proof fn lemma_stop_from_unknown_is_silent(m: Map<u32, User>, id: u32, msg: WsMessage)
    requires
        !m.contains_key(id),
        msg.msg_type == WsMessageType::Stop,
    ensures
        next_state(m, Event::Message(id, Some(msg))) == m,
        broadcasts(m, Event::Message(id, Some(msg))) == Seq::<WsMessage>::empty(),
{
}

/// A discovery with a text is broadcast once, as that text alone, and leaves
/// the registry as it was.
pub proof fn lemma_discovery_is_relayed(m: Map<u32, User>, id: u32, msg: WsMessage)
    requires
        msg.msg_type == WsMessageType::New,
        msg.text is Some,
    ensures
        next_state(m, Event::Message(id, Some(msg))) == m,
        broadcasts(m, Event::Message(id, Some(msg))) == seq![discovery(msg.text->Some_0)],
{
}

/// A second `Start` in a row from an open connection leaves its flag set and
/// is answered again, with the same probing counter as the first.
pub proof fn lemma_repeated_start(m: Map<u32, User>, id: u32, first: WsMessage, second: WsMessage)
    requires
        m.contains_key(id),
        first.msg_type == WsMessageType::Start,
        second.msg_type == WsMessageType::Start,
    ensures
        ({
            let after = next_state(m, Event::Message(id, Some(first)));
            &&& next_state(after, Event::Message(id, Some(second))) == after
            &&& broadcasts(after, Event::Message(id, Some(second))) == broadcasts(
                m,
                Event::Message(id, Some(first)),
            )
            &&& broadcasts(m, Event::Message(id, Some(first))) == seq![
                bruteforcing_update(bruteforcing(after) as u64),
            ]
        }),
{
    let after = next_state(m, Event::Message(id, Some(first)));
    assert(next_state(after, Event::Message(id, Some(second))) =~= after);
}

/// A message that could not be decoded changes nothing, closes nothing and is
/// not answered.
pub proof fn lemma_undecodable_is_silent(m: Map<u32, User>, id: u32)
    ensures
        next_state(m, Event::Message(id, None)) == m,
        broadcasts(m, Event::Message(id, None)) == Seq::<WsMessage>::empty(),
{
}

} // verus!
