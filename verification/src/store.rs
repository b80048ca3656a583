//! The uptime store: bounded, time-windowed per-monitor heartbeat history,
//! and the events that republish its changes to subscribers.

use vstd::prelude::*;

use crate::heartbeat::{
    HeartbeatData, HeartbeatEntry, clone_entry, insert_entry_sorted, lemma_prune_props,
    lemma_sort_by_time_props, parse_heartbeat_entry, prune_entries, prune_spec, sort_by_time,
    sorted_by_time, spec_parse_entry, time_le, views_of,
};
use crate::json::JsonValue;
use crate::text::{parse_i32, spec_parse_i32};
use crate::timestamp::{check_within_window, within_window};
use vstd::utf8::encode_utf8;

verus! {

/// In-memory uptime history for one monitor, capped to the retention window.
pub struct MonitorUptime {
    pub kuma_id: i32,
    pub heartbeats: Vec<HeartbeatEntry>,
}

/// One event published to subscribers: the full current state once, then an
/// incremental change per heartbeat.
pub enum UptimeEvent {
    Snapshot { monitors: Vec<MonitorUptime> },
    Update { kuma_id: i32, entry: HeartbeatEntry },
}

/// The heartbeat history a monitor record holds, as mathematical data.
pub open spec fn monitor_beats(m: MonitorUptime) -> Seq<HeartbeatData> {
    views_of(m.heartbeats@)
}

/// The index of the first record for `id`, scanning from position `i`.
pub open spec fn find_from(s: Seq<MonitorUptime>, id: int, i: int) -> Option<int>
    decreases s.len() - i,
{
    if i < 0 || i >= s.len() {
        None
    } else if s[i].kuma_id == id {
        Some(i)
    } else {
        find_from(s, id, i + 1)
    }
}

/// The index of the record for `id`, if one exists.
pub open spec fn spec_find(s: Seq<MonitorUptime>, id: int) -> Option<int> {
    find_from(s, id, 0)
}

/// The mapping from monitor id to stored history that a sequence of monitor
/// records represents.
pub open spec fn monitors_map(s: Seq<MonitorUptime>) -> Map<int, Seq<HeartbeatData>> {
    Map::new(
        |id: int| spec_find(s, id) is Some,
        |id: int| monitor_beats(s[spec_find(s, id)->0]),
    )
}

/// What `find_from` finds: a valid index holding `id`, with no earlier one,
/// or a guarantee that no record from `i` on holds `id`.
pub proof fn lemma_find_from_props(s: Seq<MonitorUptime>, id: int, i: int)
    requires
        0 <= i <= s.len(),
    ensures
        match find_from(s, id, i) {
            Some(k) => i <= k < s.len() && s[k].kuma_id == id && forall|j: int|
                i <= j < k ==> (#[trigger] s[j]).kuma_id != id,
            None => forall|j: int| i <= j < s.len() ==> (#[trigger] s[j]).kuma_id != id,
        },
    decreases s.len() - i,
{
    if i < s.len() && s[i].kuma_id != id {
        lemma_find_from_props(s, id, i + 1);
    }
}

/// Two record sequences with the same ids position every id identically.
pub proof fn lemma_find_same_ids(s1: Seq<MonitorUptime>, s2: Seq<MonitorUptime>, id: int, i: int)
    requires
        s1.len() == s2.len(),
        forall|k: int| 0 <= k < s1.len() ==> (#[trigger] s1[k]).kuma_id == s2[k].kuma_id,
        0 <= i <= s1.len(),
    ensures
        find_from(s1, id, i) == find_from(s2, id, i),
    decreases s1.len() - i,
{
    if i < s1.len() && s1[i].kuma_id != id {
        lemma_find_same_ids(s1, s2, id, i + 1);
    }
}

/// Replacing the record `find` locates for an id changes the represented
/// mapping at that id alone.
proof fn lemma_map_after_update(s: Seq<MonitorUptime>, idx: int, m2: MonitorUptime)
    requires
        0 <= idx < s.len(),
        m2.kuma_id == s[idx].kuma_id,
        spec_find(s, m2.kuma_id as int) == Some(idx),
    ensures
        monitors_map(s.update(idx, m2)) == monitors_map(s).insert(
            m2.kuma_id as int,
            monitor_beats(m2),
        ),
{
    let id = m2.kuma_id as int;
    let s2 = s.update(idx, m2);
    assert forall|id2: int| true implies #[trigger] find_from(s2, id2, 0) == find_from(
        s,
        id2,
        0,
    ) by {
        lemma_find_same_ids(s2, s, id2, 0);
    }
    assert forall|id2: int|
        monitors_map(s2).dom().contains(id2) && id2 != id implies #[trigger] monitors_map(
        s2,
    )[id2] == monitors_map(s)[id2] by {
        lemma_find_from_props(s, id2, 0);
        let k = spec_find(s, id2)->0;
        assert(s[k].kuma_id == id2);
        assert(k != idx);
        assert(s2[k] == s[k]);
    }
    assert(monitors_map(s2) =~= monitors_map(s).insert(id, monitor_beats(m2)));
}

/// Appending a record for an id the store lacks changes the represented
/// mapping at that id alone.
proof fn lemma_map_after_push(s: Seq<MonitorUptime>, m: MonitorUptime)
    requires
        spec_find(s, m.kuma_id as int) is None,
    ensures
        monitors_map(s.push(m)) == monitors_map(s).insert(m.kuma_id as int, monitor_beats(m)),
{
    let id = m.kuma_id as int;
    let s2 = s.push(m);
    assert forall|id2: int| true implies #[trigger] find_from(s2, id2, 0) == (if find_from(
        s,
        id2,
        0,
    ) is Some {
        find_from(s, id2, 0)
    } else if id2 == id {
        Some(s.len() as int)
    } else {
        None
    }) by {
        lemma_find_push(s, m, id2, 0);
    }
    assert forall|id2: int|
        monitors_map(s2).dom().contains(id2) && id2 != id implies #[trigger] monitors_map(
        s2,
    )[id2] == monitors_map(s)[id2] by {
        lemma_find_from_props(s, id2, 0);
        let k = spec_find(s, id2)->0;
        assert(s2[k] == s[k]);
    }
    assert(monitors_map(s2)[id] == monitor_beats(m));
    assert(monitors_map(s2) =~= monitors_map(s).insert(id, monitor_beats(m)));
}

/// How `find_from` behaves on a sequence extended by one record.
proof fn lemma_find_push(s: Seq<MonitorUptime>, m: MonitorUptime, id: int, i: int)
    requires
        0 <= i <= s.len(),
    ensures
        find_from(s.push(m), id, i) == (if find_from(s, id, i) is Some {
            find_from(s, id, i)
        } else if m.kuma_id == id {
            Some(s.len() as int)
        } else {
            None
        }),
    decreases s.len() - i,
{
    let s2 = s.push(m);
    if i < s.len() {
        assert(s2[i] == s[i]);
        if s[i].kuma_id != id {
            lemma_find_push(s, m, id, i + 1);
        }
    } else {
        assert(s2[i].kuma_id == m.kuma_id);
        assert(find_from(s, id, i) is None);
        if m.kuma_id != id {
            assert(find_from(s2, id, i + 1) is None);
        }
    }
}

/// Copies the heartbeat list of one monitor.
pub fn clone_beats(v: &Vec<HeartbeatEntry>) -> (r: Vec<HeartbeatEntry>)
    ensures
        views_of(r@) == views_of(v@),
{
    let mut r: Vec<HeartbeatEntry> = Vec::new();
    let mut i: usize = 0;
    while i < v.len()
        invariant
            i <= v@.len(),
            r@.len() == i,
            forall|k: int| 0 <= k < i ==> (#[trigger] r@[k])@ == v@[k]@,
        decreases v@.len() - i,
    {
        let e = clone_entry(&v[i]);
        r.push(e);
        i = i + 1;
    }
    proof {
        assert(views_of(r@) =~= views_of(v@));
    }
    r
}

/// The shared uptime store: one writer (the poller) mutates it, readers take
/// point-in-time snapshots.  Each monitor id appears at most once.
pub struct UptimeStore {
    pub monitors: Vec<MonitorUptime>,
}

impl View for UptimeStore {
    type V = Map<int, Seq<HeartbeatData>>;

    open spec fn view(&self) -> Map<int, Seq<HeartbeatData>> {
        monitors_map(self.monitors@)
    }
}

impl UptimeStore {
    /// Each monitor id appears at most once.
    pub open spec fn wf(self) -> bool {
        forall|i: int, j: int|
            0 <= i < j < self.monitors@.len() ==> (#[trigger] self.monitors@[i]).kuma_id != (
            #[trigger] self.monitors@[j]).kuma_id
    }

    /// An empty store.
    pub fn new() -> (s: UptimeStore)
        ensures
            s.wf(),
            s@ == Map::<int, Seq<HeartbeatData>>::empty(),
    {
        let s = UptimeStore { monitors: Vec::new() };
        proof {
            assert(s@ =~= Map::<int, Seq<HeartbeatData>>::empty());
        }
        s
    }

    /// The position of the record for `id`, if the store holds one.
    pub fn find_monitor(&self, id: i32) -> (r: Option<usize>)
        ensures
            match r {
                Some(k) => spec_find(self.monitors@, id as int) == Some(k as int),
                None => spec_find(self.monitors@, id as int) is None,
            },
    {
        let mut i: usize = 0;
        while i < self.monitors.len()
            invariant
                i <= self.monitors@.len(),
                spec_find(self.monitors@, id as int) == find_from(
                    self.monitors@,
                    id as int,
                    i as int,
                ),
            decreases self.monitors@.len() - i,
        {
            if self.monitors[i].kuma_id == id {
                return Some(i);
            }
            i = i + 1;
        }
        None
    }

    /// Replaces the stored history for `id`, creating the record when the
    /// store lacks one; nothing else changes.
    fn set_monitor_beats(&mut self, id: i32, beats: Vec<HeartbeatEntry>)
        requires
            old(self).wf(),
        ensures
            final(self).wf(),
            final(self)@ == old(self)@.insert(id as int, views_of(beats@)),
    {
        match self.find_monitor(id) {
            Some(idx) => {
                proof {
                    lemma_find_from_props(self.monitors@, id as int, 0);
                }
                let mut m = self.monitors.remove(idx);
                m = MonitorUptime { kuma_id: m.kuma_id, heartbeats: beats };
                self.monitors.insert(idx, m);
                proof {
                    assert(self.monitors@ =~= old(self).monitors@.update(idx as int, m));
                    lemma_map_after_update(old(self).monitors@, idx as int, m);
                }
            },
            None => {
                proof {
                    lemma_find_from_props(self.monitors@, id as int, 0);
                }
                let m = MonitorUptime { kuma_id: id, heartbeats: beats };
                self.monitors.push(m);
                proof {
                    lemma_map_after_push(old(self).monitors@, m);
                }
            },
        }
    }

    /// A point-in-time copy of every monitor record, representing exactly
    /// the store's current mapping.
    pub fn snapshot_monitors(&self) -> (r: Vec<MonitorUptime>)
        ensures
            monitors_map(r@) == self@,
    {
        let mut r: Vec<MonitorUptime> = Vec::new();
        let mut i: usize = 0;
        while i < self.monitors.len()
            invariant
                i <= self.monitors@.len(),
                r@.len() == i,
                forall|k: int|
                    0 <= k < i ==> (#[trigger] r@[k]).kuma_id == self.monitors@[k].kuma_id
                        && monitor_beats(r@[k]) == monitor_beats(self.monitors@[k]),
            decreases self.monitors@.len() - i,
        {
            let m = &self.monitors[i];
            let copy = MonitorUptime { kuma_id: m.kuma_id, heartbeats: clone_beats(&m.heartbeats) };
            r.push(copy);
            i = i + 1;
        }
        proof {
            assert forall|id: int| true implies #[trigger] find_from(r@, id, 0) == find_from(
                self.monitors@,
                id,
                0,
            ) by {
                lemma_find_same_ids(r@, self.monitors@, id, 0);
            }
            assert forall|id: int| monitors_map(r@).dom().contains(id) implies #[trigger] monitors_map(
                r@,
            )[id] == monitors_map(self.monitors@)[id] by {
                lemma_find_from_props(self.monitors@, id, 0);
            }
            assert(monitors_map(r@) =~= self@);
        }
        r
    }
}

// ── Real-time heartbeat application ─────────────────────────────────

/// What a single real-time heartbeat payload means: the monitor id under
/// `monitorID` and the decoded record.  A payload missing either is dropped.
pub open spec fn spec_update_msg(v: JsonValue) -> Option<(i32, HeartbeatData)> {
    match v.spec_get("monitorID"@) {
        Some(idv) => match idv.spec_as_i64() {
            Some(id64) => match spec_parse_entry(v) {
                Some(e) => Some(((id64 as i32), e)),
                None => None,
            },
            None => None,
        },
        None => None,
    }
}

/// The history a mapping holds for `id`: empty when the id is unknown.
pub open spec fn stored_beats(m: Map<int, Seq<HeartbeatData>>, id: int) -> Seq<HeartbeatData> {
    if m.dom().contains(id) {
        m[id]
    } else {
        Seq::empty()
    }
}

// ── Bulk replay application ─────────────────────────────────────────

/// The records of one raw heartbeat array that are kept: each record that
/// decodes, except those whose time parses to an instant at or before the
/// cutoff; order of arrival is preserved.
pub open spec fn spec_kept(vals: Seq<JsonValue>, cutoff_ms: i64) -> Seq<HeartbeatData>
    decreases vals.len(),
{
    if vals.len() == 0 {
        Seq::empty()
    } else {
        let rest = spec_kept(vals.drop_last(), cutoff_ms);
        match spec_parse_entry(vals.last()) {
            Some(e) => if within_window(e.time, cutoff_ms) {
                rest.push(e)
            } else {
                rest
            },
            None => rest,
        }
    }
}

/// The history one bulk-replay array yields: the kept records, sorted
/// ascending by time.
pub open spec fn spec_list_beats(vals: Seq<JsonValue>, cutoff_ms: i64) -> Seq<HeartbeatData> {
    sort_by_time(spec_kept(vals, cutoff_ms))
}

/// What one key/value pair of the bulk payload does to the mapping: a key
/// that parses as a monitor id whose value is an array replaces that
/// monitor's history; any other pair is skipped.
pub open spec fn spec_pair_apply(
    m: Map<int, Seq<HeartbeatData>>,
    key: String,
    val: JsonValue,
    cutoff_ms: i64,
) -> Map<int, Seq<HeartbeatData>> {
    match spec_parse_i32(encode_utf8(key@)) {
        Some(id) => match val {
            JsonValue::Arr(a) => m.insert(id as int, spec_list_beats(a@, cutoff_ms)),
            _ => m,
        },
        None => m,
    }
}

/// The mapping after a whole bulk payload, applied pair by pair in order.
pub open spec fn spec_list_apply(
    m: Map<int, Seq<HeartbeatData>>,
    pairs: Seq<(String, JsonValue)>,
    cutoff_ms: i64,
) -> Map<int, Seq<HeartbeatData>>
    decreases pairs.len(),
{
    if pairs.len() == 0 {
        m
    } else {
        spec_list_apply(
            spec_pair_apply(m, pairs[0].0, pairs[0].1, cutoff_ms),
            pairs.drop_first(),
            cutoff_ms,
        )
    }
}

/// Decodes one raw heartbeat array into the history to store: kept records,
/// sorted ascending by time.
fn build_sorted_beats(a: &Vec<JsonValue>, cutoff_ms: i64) -> (r: Vec<HeartbeatEntry>)
    ensures
        views_of(r@) == spec_list_beats(a@, cutoff_ms),
{
    let mut out: Vec<HeartbeatEntry> = Vec::new();
    let mut j: usize = 0;
    proof {
        assert(a@.take(0) =~= Seq::<JsonValue>::empty());
        assert(views_of(out@) =~= sort_by_time(spec_kept(a@.take(0), cutoff_ms)));
    }
    while j < a.len()
        invariant
            j <= a@.len(),
            views_of(out@) == sort_by_time(spec_kept(a@.take(j as int), cutoff_ms)),
        decreases a@.len() - j,
    {
        proof {
            assert(a@.take(j + 1).drop_last() =~= a@.take(j as int));
            assert(a@.take(j + 1).last() == a@[j as int]);
        }
        match parse_heartbeat_entry(&a[j]) {
            Some(e) => {
                if check_within_window(e.time.as_str(), cutoff_ms) {
                    let ghost kept = spec_kept(a@.take(j as int), cutoff_ms);
                    proof {
                        assert(spec_kept(a@.take(j + 1), cutoff_ms) == kept.push(e@));
                        assert(kept.push(e@).drop_last() =~= kept);
                        assert(kept.push(e@).last() == e@);
                    }
                    insert_entry_sorted(&mut out, e);
                }
            },
            None => {},
        }
        j = j + 1;
    }
    proof {
        assert(a@.take(j as int) =~= a@);
    }
    out
}

impl UptimeStore {
    /// Applies one real-time heartbeat: the decoded record is appended to
    /// its monitor's history (creating the monitor when unseen), entries
    /// outside the window are pruned, and the update to republish is
    /// returned.  A payload whose id or record does not decode changes
    /// nothing and yields no event.
    pub fn apply_heartbeat(&mut self, v: &JsonValue, cutoff_ms: i64) -> (ev: Option<UptimeEvent>)
        requires
            old(self).wf(),
        ensures
            final(self).wf(),
            match spec_update_msg(*v) {
                None => final(self)@ == old(self)@ && ev is None,
                Some((id, e)) => {
                    &&& final(self)@ == old(self)@.insert(
                        id as int,
                        prune_spec(stored_beats(old(self)@, id as int).push(e), cutoff_ms),
                    )
                    &&& ev matches Some(u)
                    &&& u matches UptimeEvent::Update { kuma_id, entry } && kuma_id == id
                        && entry@ == e
                },
            },
    {
        let id64: i64 = match v.get("monitorID") {
            Some(idv) => match idv.as_i64() {
                Some(n) => n,
                None => {
                    return None;
                },
            },
            None => {
                return None;
            },
        };
        let id: i32 = #[verifier::truncate] (id64 as i32);
        let entry = match parse_heartbeat_entry(v) {
            Some(e) => e,
            None => {
                return None;
            },
        };
        let ev_entry = clone_entry(&entry);
        let mut list: Vec<HeartbeatEntry> = match self.find_monitor(id) {
            Some(idx) => {
                proof {
                    lemma_find_from_props(self.monitors@, id as int, 0);
                }
                clone_beats(&self.monitors[idx].heartbeats)
            },
            None => Vec::new(),
        };
        proof {
            assert(views_of(list@) == stored_beats(self@, id as int));
        }
        list.push(entry);
        proof {
            assert(views_of(list@) =~= stored_beats(self@, id as int).push(entry@));
        }
        let pruned = prune_entries(&list, cutoff_ms);
        self.set_monitor_beats(id, pruned);
        Some(UptimeEvent::Update { kuma_id: id, entry: ev_entry })
    }

    /// Applies one bulk replay payload: for each key that names a monitor
    /// id with an array of records, the kept records replace (not extend)
    /// that monitor's history, sorted by time; unusable keys and records
    /// are skipped individually.  Returns the snapshot of the full current
    /// state to republish, or nothing when the payload is not an object.
    pub fn apply_heartbeat_list(&mut self, v: &JsonValue, cutoff_ms: i64) -> (ev: Option<
        UptimeEvent,
    >)
        requires
            old(self).wf(),
        ensures
            final(self).wf(),
            v matches JsonValue::Obj(entries) ==> {
                &&& final(self)@ == spec_list_apply(old(self)@, entries@, cutoff_ms)
                &&& ev matches Some(s)
                &&& s matches UptimeEvent::Snapshot { monitors } && monitors_map(monitors@)
                    == final(self)@
            },
            !(v is Obj) ==> final(self)@ == old(self)@ && ev is None,
    {
        let entries: &Vec<(String, JsonValue)> = match v {
            JsonValue::Obj(entries) => entries,
            _ => {
                return None;
            },
        };
        let ghost pairs = entries@;
        let mut i: usize = 0;
        proof {
            assert(pairs.skip(0) =~= pairs);
        }
        while i < entries.len()
            invariant
                i <= pairs.len(),
                pairs == entries@,
                self.wf(),
                spec_list_apply(self@, pairs.skip(i as int), cutoff_ms) == spec_list_apply(
                    old(self)@,
                    pairs,
                    cutoff_ms,
                ),
            decreases pairs.len() - i,
        {
            proof {
                assert(pairs.skip(i as int)[0] == pairs[i as int]);
                assert(pairs.skip(i as int).drop_first() =~= pairs.skip(i + 1));
            }
            match parse_i32(entries[i].0.as_str()) {
                Some(id) => {
                    match &entries[i].1 {
                        JsonValue::Arr(a) => {
                            let beats = build_sorted_beats(a, cutoff_ms);
                            self.set_monitor_beats(id, beats);
                        },
                        _ => {},
                    }
                },
                None => {},
            }
            i = i + 1;
        }
        proof {
            assert(pairs.skip(i as int) =~= Seq::<(String, JsonValue)>::empty());
        }
        let snap = self.snapshot_monitors();
        Some(UptimeEvent::Snapshot { monitors: snap })
    }
}

// ── Laws ────────────────────────────────────────────────────────────

/// After a real-time heartbeat is applied, the stored history (which
/// `apply_heartbeat` leaves as this pruned sequence) holds no entry older
/// than the cutoff; and when the history was time-ascending and the new
/// record is no earlier than any stored one — heartbeats arriving in time
/// order — the pruned history is time-ascending too.  (A record arriving
/// out of order is appended out of order, as the service's own stream
/// would show it.)
pub proof fn lemma_update_history_window_and_order(
    old_beats: Seq<HeartbeatData>,
    e: HeartbeatData,
    cutoff_ms: i64,
)
    ensures
        forall|i: int|
            0 <= i < prune_spec(old_beats.push(e), cutoff_ms).len() ==> within_window(
                (#[trigger] prune_spec(old_beats.push(e), cutoff_ms)[i]).time,
                cutoff_ms,
            ),
        (sorted_by_time(old_beats) && (forall|k: int|
            0 <= k < old_beats.len() ==> time_le(#[trigger] old_beats[k], e)))
            ==> sorted_by_time(prune_spec(old_beats.push(e), cutoff_ms)),
{
    lemma_prune_props(old_beats.push(e), cutoff_ms);
    if sorted_by_time(old_beats) && (forall|k: int|
        0 <= k < old_beats.len() ==> time_le(#[trigger] old_beats[k], e)) {
        let s = old_beats.push(e);
        assert forall|i: int, j: int| 0 <= i < j < s.len() implies time_le(s[i], s[j]) by {
            if j == s.len() - 1 {
                assert(s[i] == old_beats[i]);
            }
        }
    }
}

/// Every record of `spec_kept` lies inside the window (or has an
/// unreadable time, which is kept by design).
proof fn lemma_kept_within(vals: Seq<JsonValue>, cutoff_ms: i64)
    ensures
        forall|i: int|
            0 <= i < spec_kept(vals, cutoff_ms).len() ==> within_window(
                (#[trigger] spec_kept(vals, cutoff_ms)[i]).time,
                cutoff_ms,
            ),
    decreases vals.len(),
{
    if vals.len() != 0 {
        lemma_kept_within(vals.drop_last(), cutoff_ms);
    }
}

/// The history a bulk replay stores for a monitor is time-ascending and
/// holds no entry older than the cutoff.
pub proof fn lemma_replayed_history_window_and_order(vals: Seq<JsonValue>, cutoff_ms: i64)
    ensures
        sorted_by_time(spec_list_beats(vals, cutoff_ms)),
        forall|i: int|
            0 <= i < spec_list_beats(vals, cutoff_ms).len() ==> within_window(
                (#[trigger] spec_list_beats(vals, cutoff_ms)[i]).time,
                cutoff_ms,
            ),
{
    let kept = spec_kept(vals, cutoff_ms);
    lemma_kept_within(vals, cutoff_ms);
    lemma_sort_by_time_props(kept);
    assert forall|i: int|
        0 <= i < spec_list_beats(vals, cutoff_ms).len() implies within_window(
        (#[trigger] spec_list_beats(vals, cutoff_ms)[i]).time,
        cutoff_ms,
    ) by {
        let k = choose|k: int| 0 <= k < kept.len() && sort_by_time(kept)[i] == kept[k];
        assert(within_window(kept[k].time, cutoff_ms));
    }
}

/// What one key/value pair of a bulk payload stores, if anything: the
/// monitor id its key names and the history its array yields.
pub open spec fn pair_sets(key: String, val: JsonValue, cutoff_ms: i64) -> Option<
    (int, Seq<HeartbeatData>),
> {
    match spec_parse_i32(encode_utf8(key@)) {
        Some(id) => match val {
            JsonValue::Arr(a) => Some((id as int, spec_list_beats(a@, cutoff_ms))),
            _ => None,
        },
        None => None,
    }
}

/// The history the payload stores for `id`, taking the last pair that sets
/// it, or nothing when no pair does.
pub open spec fn last_set(pairs: Seq<(String, JsonValue)>, id: int, cutoff_ms: i64) -> Option<
    Seq<HeartbeatData>,
>
    decreases pairs.len(),
{
    if pairs.len() == 0 {
        None
    } else {
        match pair_sets(pairs.last().0, pairs.last().1, cutoff_ms) {
            Some(sv) => if sv.0 == id {
                Some(sv.1)
            } else {
                last_set(pairs.drop_last(), id, cutoff_ms)
            },
            None => last_set(pairs.drop_last(), id, cutoff_ms),
        }
    }
}

/// `last_set` unfolded from the front instead of the back.
proof fn lemma_last_set_front(pairs: Seq<(String, JsonValue)>, id: int, cutoff_ms: i64)
    requires
        pairs.len() > 0,
    ensures
        last_set(pairs, id, cutoff_ms) == (if last_set(pairs.drop_first(), id, cutoff_ms)
            is Some {
            last_set(pairs.drop_first(), id, cutoff_ms)
        } else {
            match pair_sets(pairs[0].0, pairs[0].1, cutoff_ms) {
                Some(sv) => if sv.0 == id {
                    Some(sv.1)
                } else {
                    None
                },
                None => None,
            }
        }),
    decreases pairs.len(),
{
    let q = pairs.drop_first();
    if pairs.len() == 1 {
        assert(q.len() == 0);
        assert(pairs.last() == pairs[0]);
    } else {
        assert(q.last() == pairs.last());
        assert(q.drop_last() =~= pairs.drop_last().drop_first());
        assert(pairs.drop_last()[0] == pairs[0]);
        lemma_last_set_front(pairs.drop_last(), id, cutoff_ms);
    }
}

/// What a bulk payload leaves at each id: the last pair that sets the id
/// decides its history; every other id keeps what the base mapping held.
pub proof fn lemma_list_apply_frame(
    m: Map<int, Seq<HeartbeatData>>,
    pairs: Seq<(String, JsonValue)>,
    cutoff_ms: i64,
)
    ensures
        forall|id: int|
            match #[trigger] last_set(pairs, id, cutoff_ms) {
                Some(v) => spec_list_apply(m, pairs, cutoff_ms).dom().contains(id)
                    && spec_list_apply(m, pairs, cutoff_ms)[id] == v,
                None => spec_list_apply(m, pairs, cutoff_ms).dom().contains(id) == m.dom().contains(
                    id,
                ) && (m.dom().contains(id) ==> spec_list_apply(m, pairs, cutoff_ms)[id] == m[id]),
            },
    decreases pairs.len(),
{
    if pairs.len() > 0 {
        let m1 = spec_pair_apply(m, pairs[0].0, pairs[0].1, cutoff_ms);
        lemma_list_apply_frame(m1, pairs.drop_first(), cutoff_ms);
        assert forall|id: int| true implies match #[trigger] last_set(pairs, id, cutoff_ms) {
            Some(v) => spec_list_apply(m, pairs, cutoff_ms).dom().contains(id) && spec_list_apply(
                m,
                pairs,
                cutoff_ms,
            )[id] == v,
            None => spec_list_apply(m, pairs, cutoff_ms).dom().contains(id) == m.dom().contains(id)
                && (m.dom().contains(id) ==> spec_list_apply(m, pairs, cutoff_ms)[id] == m[id]),
        } by {
            lemma_last_set_front(pairs, id, cutoff_ms);
        }
    }
}

/// Every history a bulk payload sets is time-ascending and holds no entry
/// older than the cutoff.
pub proof fn lemma_replay_sets_ordered_histories(pairs: Seq<(String, JsonValue)>, cutoff_ms: i64)
    ensures
        forall|id: int|
            match #[trigger] last_set(pairs, id, cutoff_ms) {
                Some(v) => sorted_by_time(v) && (forall|i: int|
                    0 <= i < v.len() ==> within_window((#[trigger] v[i]).time, cutoff_ms)),
                None => true,
            },
    decreases pairs.len(),
{
    if pairs.len() > 0 {
        lemma_replay_sets_ordered_histories(pairs.drop_last(), cutoff_ms);
        assert forall|id: int| true implies match #[trigger] last_set(pairs, id, cutoff_ms) {
            Some(v) => sorted_by_time(v) && (forall|i: int|
                0 <= i < v.len() ==> within_window((#[trigger] v[i]).time, cutoff_ms)),
            None => true,
        } by {
            match pair_sets(pairs.last().0, pairs.last().1, cutoff_ms) {
                Some(sv) => {
                    if sv.0 == id {
                        match pairs.last().1 {
                            JsonValue::Arr(a) => {
                                lemma_replayed_history_window_and_order(a@, cutoff_ms);
                            },
                            _ => {},
                        }
                    } else {
                        let below = last_set(pairs.drop_last(), id, cutoff_ms);
                    }
                },
                None => {
                    let below = last_set(pairs.drop_last(), id, cutoff_ms);
                },
            }
        }
    }
}

/// Processing the same bulk payload twice leaves the same mapping as
/// processing it once: each named history is replaced, not extended.
pub proof fn lemma_list_apply_idempotent(
    m: Map<int, Seq<HeartbeatData>>,
    pairs: Seq<(String, JsonValue)>,
    cutoff_ms: i64,
)
    ensures
        spec_list_apply(spec_list_apply(m, pairs, cutoff_ms), pairs, cutoff_ms) == spec_list_apply(
            m,
            pairs,
            cutoff_ms,
        ),
{
    let m1 = spec_list_apply(m, pairs, cutoff_ms);
    let m2 = spec_list_apply(m1, pairs, cutoff_ms);
    lemma_list_apply_frame(m, pairs, cutoff_ms);
    lemma_list_apply_frame(m1, pairs, cutoff_ms);
    // Naming what the payload last sets at each id brings both frame
    // facts to bear on that id.
    assert forall|id: int| #[trigger] m1.dom().contains(id) implies m2.dom().contains(id) by {
        let setting = last_set(pairs, id, cutoff_ms);
    }
    assert forall|id: int| #[trigger] m2.dom().contains(id) implies m1.dom().contains(id) by {
        let setting = last_set(pairs, id, cutoff_ms);
    }
    assert forall|id: int| #[trigger] m2.dom().contains(id) implies m2[id] == m1[id] by {
        let setting = last_set(pairs, id, cutoff_ms);
    }
    assert(m2 =~= m1);
}

} // verus!
