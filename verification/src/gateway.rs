//! The subscription handshake for the push stream.
//!
//! A new subscriber is attached to the event bus first and only then reads
//! the store, so no update published in between can be lost.  Its stream is
//! the snapshot taken at that point followed by every bus event it receives,
//! forwarded verbatim.

use vstd::prelude::*;

use crate::store::{UptimeEvent, UptimeStore, monitors_map};

verus! {

/// The whole stream one subscriber observes: the handshake snapshot, then
/// the bus events forwarded verbatim.
pub open spec fn subscriber_stream(first: UptimeEvent, bus: Seq<UptimeEvent>) -> Seq<UptimeEvent> {
    seq![first] + bus
}

/// How many snapshot events a stream holds.
pub open spec fn snapshot_count(s: Seq<UptimeEvent>) -> int
    decreases s.len(),
{
    if s.len() == 0 {
        0
    } else {
        snapshot_count(s.drop_last()) + if s.last() is Snapshot {
            1int
        } else {
            0int
        }
    }
}

/// The handshake event for one new subscriber: a snapshot holding exactly
/// the store's current mapping.
pub fn snapshot_event(store: &UptimeStore) -> (ev: UptimeEvent)
    ensures
        ev matches UptimeEvent::Snapshot { monitors } && monitors_map(monitors@) == store@,
{
    let monitors = store.snapshot_monitors();
    UptimeEvent::Snapshot { monitors }
}

/// Every subscription observes one snapshot before any update: its stream
/// opens with the handshake snapshot, every update in it is preceded by a
/// snapshot, the bus events follow unchanged, and when the bus traffic
/// holds no snapshot of its own the stream holds exactly one.
pub proof fn lemma_subscription_snapshot_first(first: UptimeEvent, bus: Seq<UptimeEvent>)
    requires
        first is Snapshot,
    ensures
        subscriber_stream(first, bus)[0] is Snapshot,
        subscriber_stream(first, bus).len() == 1 + bus.len(),
        forall|i: int|
            1 <= i < subscriber_stream(first, bus).len() ==> #[trigger] subscriber_stream(
                first,
                bus,
            )[i] == bus[i - 1],
        forall|i: int|
            0 <= i < subscriber_stream(first, bus).len() && (#[trigger] subscriber_stream(
                first,
                bus,
            )[i]) is Update ==> exists|j: int|
                0 <= j < i && subscriber_stream(first, bus)[j] is Snapshot,
        (forall|k: int| 0 <= k < bus.len() ==> !((#[trigger] bus[k]) is Snapshot))
            ==> snapshot_count(subscriber_stream(first, bus)) == 1,
{
    let s = subscriber_stream(first, bus);
    assert forall|i: int|
        0 <= i < s.len() && (#[trigger] s[i]) is Update implies exists|j: int|
        0 <= j < i && s[j] is Snapshot by {
        assert(s[0] is Snapshot);
        assert(0 < i);
    }
    if forall|k: int| 0 <= k < bus.len() ==> !((#[trigger] bus[k]) is Snapshot) {
        lemma_snapshot_count_one(s);
    }
}

/// A stream whose head is a snapshot and whose tail holds none counts one.
proof fn lemma_snapshot_count_one(s: Seq<UptimeEvent>)
    requires
        s.len() >= 1,
        s[0] is Snapshot,
        forall|i: int| 1 <= i < s.len() ==> !((#[trigger] s[i]) is Snapshot),
    ensures
        snapshot_count(s) == 1,
    decreases s.len(),
{
    if s.len() == 1 {
        assert(s.drop_last().len() == 0);
        assert(snapshot_count(s.drop_last()) == 0);
        assert(s.last() == s[0]);
    } else {
        assert(s.drop_last()[0] == s[0]);
        assert(!(s[s.len() - 1] is Snapshot));
        lemma_snapshot_count_one(s.drop_last());
    }
}

} // verus!
