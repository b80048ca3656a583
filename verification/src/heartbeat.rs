//! Heartbeat records: decoding raw transport payloads, ordering by time,
//! sorting and pruning against the retention window.

use vstd::prelude::*;
use vstd::string::StringSliceAdditionalSpecFns;
use vstd::utf8::encode_utf8;

use crate::json::JsonValue;
use crate::text::{lex_le, lemma_lex_le_total, lemma_lex_le_trans, bytes_le};
use crate::timestamp::{within_window, check_within_window};

verus! {

/// One heartbeat record.  Status codes are an opaque pass-through
/// (1 = up, 0 = down, 2 = pending, 3 = maintenance); `time` is an RFC 3339
/// string; `ping` is the latency in milliseconds when the probe reported
/// one.  Immutable once created.
pub struct HeartbeatEntry {
    pub status: i32,
    pub time: String,
    pub ping: Option<i32>,
    pub msg: Option<String>,
}

/// The mathematical content of one heartbeat record.
pub ghost struct HeartbeatData {
    pub status: i32,
    pub time: Seq<char>,
    pub ping: Option<i32>,
    pub msg: Option<Seq<char>>,
}

impl View for HeartbeatEntry {
    type V = HeartbeatData;

    open spec fn view(&self) -> HeartbeatData {
        HeartbeatData {
            status: self.status,
            time: self.time@,
            ping: self.ping,
            msg: match self.msg {
                Some(m) => Some(m@),
                None => None,
            },
        }
    }
}

/// The views of a sequence of records.
pub open spec fn views_of(s: Seq<HeartbeatEntry>) -> Seq<HeartbeatData> {
    Seq::new(s.len(), |i: int| s[i]@)
}

/// Copies one record.
pub fn clone_entry(e: &HeartbeatEntry) -> (r: HeartbeatEntry)
    ensures
        r@ == e@,
{
    HeartbeatEntry {
        status: e.status,
        time: e.time.clone(),
        ping: e.ping,
        msg: match &e.msg {
            Some(m) => Some(m.clone()),
            None => None,
        },
    }
}

// ── Ordering by time ────────────────────────────────────────────────

/// Record order: by the time string, compared byte-wise as `str` ordering
/// compares it.
pub open spec fn time_le(a: HeartbeatData, b: HeartbeatData) -> bool {
    lex_le(encode_utf8(a.time), encode_utf8(b.time))
}

/// Any two records are comparable by time.
pub proof fn lemma_time_le_total(a: HeartbeatData, b: HeartbeatData)
    ensures
        time_le(a, b) || time_le(b, a),
{
    lemma_lex_le_total(encode_utf8(a.time), encode_utf8(b.time));
}

/// The time order is transitive.
pub proof fn lemma_time_le_trans(a: HeartbeatData, b: HeartbeatData, c: HeartbeatData)
    requires
        time_le(a, b),
        time_le(b, c),
    ensures
        time_le(a, c),
{
    lemma_lex_le_trans(encode_utf8(a.time), encode_utf8(b.time), encode_utf8(c.time));
}

/// Decides `time_le` on two records.
pub fn entry_time_le(a: &HeartbeatEntry, b: &HeartbeatEntry) -> (r: bool)
    ensures
        r == time_le(a@, b@),
{
    bytes_le(a.time.as_str().as_bytes(), b.time.as_str().as_bytes())
}

/// The sequence is ascending by time.
pub open spec fn sorted_by_time(s: Seq<HeartbeatData>) -> bool {
    forall|i: int, j: int| 0 <= i < j < s.len() ==> time_le(#[trigger] s[i], #[trigger] s[j])
}

// ── Sorting ─────────────────────────────────────────────────────────

/// Inserts a record into a time-sorted sequence, after any record with the
/// same time (the stable position).
pub open spec fn insert_by_time(e: HeartbeatData, s: Seq<HeartbeatData>) -> Seq<HeartbeatData>
    decreases s.len(),
{
    if s.len() == 0 {
        seq![e]
    } else if time_le(s.last(), e) {
        s.push(e)
    } else {
        insert_by_time(e, s.drop_last()).push(s.last())
    }
}

/// Stable insertion sort by time.
pub open spec fn sort_by_time(s: Seq<HeartbeatData>) -> Seq<HeartbeatData>
    decreases s.len(),
{
    if s.len() == 0 {
        Seq::empty()
    } else {
        insert_by_time(s.last(), sort_by_time(s.drop_last()))
    }
}

/// Inserting keeps the sequence sorted; the result holds the old records
/// and the new one, and nothing else.
pub proof fn lemma_insert_by_time_props(e: HeartbeatData, s: Seq<HeartbeatData>)
    requires
        sorted_by_time(s),
    ensures
        sorted_by_time(insert_by_time(e, s)),
        insert_by_time(e, s).len() == s.len() + 1,
        forall|i: int|
            0 <= i < insert_by_time(e, s).len() ==> (#[trigger] insert_by_time(e, s)[i] == e
                || exists|j: int| 0 <= j < s.len() && insert_by_time(e, s)[i] == s[j]),
    decreases s.len(),
{
    let r = insert_by_time(e, s);
    if s.len() == 0 {
    } else if time_le(s.last(), e) {
        assert forall|i: int, j: int| 0 <= i < j < r.len() implies time_le(r[i], r[j]) by {
            if j == r.len() - 1 {
                assert(r[i] == s[i]);
                if i < s.len() - 1 {
                    assert(time_le(s[i], s[s.len() - 1]));
                    lemma_time_le_trans(s[i], s[s.len() - 1], e);
                } else {
                    assert(s[i] == s.last());
                }
            }
        }
    } else {
        let dl = s.drop_last();
        assert(sorted_by_time(dl));
        lemma_insert_by_time_props(e, dl);
        let r2 = insert_by_time(e, dl);
        lemma_time_le_total(s.last(), e);
        assert forall|i: int, j: int| 0 <= i < j < r.len() implies time_le(r[i], r[j]) by {
            if j == r.len() - 1 {
                assert(r[i] == r2[i]);
                assert(r[j] == s[s.len() - 1]);
                if r2[i] == e {
                    assert(time_le(e, s.last()));
                } else {
                    let k = choose|k: int| 0 <= k < dl.len() && r2[i] == dl[k];
                    assert(s[k] == dl[k]);
                    if k < s.len() - 1 {
                        assert(time_le(s[k], s[s.len() - 1]));
                    }
                }
            } else {
                assert(r[i] == r2[i] && r[j] == r2[j]);
            }
        }
        assert forall|i: int|
            0 <= i < r.len() implies (#[trigger] r[i] == e || exists|j: int|
            0 <= j < s.len() && r[i] == s[j]) by {
            if i < r.len() - 1 {
                assert(r[i] == r2[i]);
                if r2[i] != e {
                    let k = choose|k: int| 0 <= k < dl.len() && r2[i] == dl[k];
                    assert(r[i] == s[k]);
                }
            } else {
                assert(r[i] == s[s.len() - 1]);
            }
        }
    }
}

/// Sorting yields a time-ascending sequence of the same length whose
/// records all come from the input.
pub proof fn lemma_sort_by_time_props(s: Seq<HeartbeatData>)
    ensures
        sorted_by_time(sort_by_time(s)),
        sort_by_time(s).len() == s.len(),
        forall|i: int|
            0 <= i < s.len() ==> exists|j: int| 0 <= j < s.len() && #[trigger] sort_by_time(
                s,
            )[i] == s[j],
    decreases s.len(),
{
    if s.len() != 0 {
        let dl = s.drop_last();
        lemma_sort_by_time_props(dl);
        lemma_insert_by_time_props(s.last(), sort_by_time(dl));
        let r = sort_by_time(s);
        assert forall|i: int|
            0 <= i < s.len() implies exists|j: int| 0 <= j < s.len() && #[trigger] r[i]
            == s[j] by {
            if r[i] == s.last() {
                assert(r[i] == s[s.len() - 1]);
            } else {
                let k = choose|k: int|
                    0 <= k < sort_by_time(dl).len() && r[i] == sort_by_time(dl)[k];
                let k2 = choose|j: int| 0 <= j < dl.len() && sort_by_time(dl)[k] == dl[j];
                assert(r[i] == s[k2]);
            }
        }
    }
}

/// Where the scan from the back stops is exactly where `insert_by_time`
/// places the record.
proof fn lemma_insert_by_time_at(e: HeartbeatData, s: Seq<HeartbeatData>, p: int)
    requires
        0 <= p <= s.len(),
        forall|k: int| p <= k < s.len() ==> !time_le(#[trigger] s[k], e),
        p > 0 ==> time_le(s[p - 1], e),
    ensures
        insert_by_time(e, s) == s.take(p).push(e) + s.skip(p),
    decreases s.len(),
{
    if s.len() == 0 {
        assert(insert_by_time(e, s) =~= s.take(p).push(e) + s.skip(p));
    } else if time_le(s.last(), e) {
        assert(p == s.len());
        assert(s.take(p) =~= s);
        assert(insert_by_time(e, s) =~= s.take(p).push(e) + s.skip(p));
    } else {
        let dl = s.drop_last();
        lemma_insert_by_time_at(e, dl, p);
        assert(insert_by_time(e, s) =~= s.take(p).push(e) + s.skip(p));
    }
}

/// Inserts a record into a time-sorted vector at its stable position.
pub fn insert_entry_sorted(out: &mut Vec<HeartbeatEntry>, e: HeartbeatEntry)
    ensures
        views_of(final(out)@) == insert_by_time(e@, views_of(old(out)@)),
{
    let ghost s = views_of(old(out)@);
    let mut p: usize = out.len();
    while p > 0 && !entry_time_le(&out[p - 1], &e)
        invariant
            out@ == old(out)@,
            s == views_of(old(out)@),
            p <= out@.len(),
            forall|k: int| p <= k < s.len() ==> !time_le(#[trigger] s[k], e@),
        decreases p,
    {
        proof {
            assert(s[p - 1] == out@[p - 1]@);
        }
        p = p - 1;
    }
    proof {
        if p > 0 {
            assert(s[p - 1] == out@[p - 1]@);
        }
        lemma_insert_by_time_at(e@, s, p as int);
    }
    out.insert(p, e);
    proof {
        assert(views_of(final(out)@) =~= s.take(p as int).push(e@) + s.skip(p as int));
    }
}

// ── Pruning against the retention window ────────────────────────────

/// The records that stay after a prune: those whose time is inside the
/// window, and those whose time does not parse, in their original order.
pub open spec fn prune_spec(s: Seq<HeartbeatData>, cutoff_ms: i64) -> Seq<HeartbeatData>
    decreases s.len(),
{
    if s.len() == 0 {
        Seq::empty()
    } else {
        let rest = prune_spec(s.drop_last(), cutoff_ms);
        if within_window(s.last().time, cutoff_ms) {
            rest.push(s.last())
        } else {
            rest
        }
    }
}

/// Every record a prune keeps is inside the window (or has an unreadable
/// time), each comes from the input, and pruning a time-ascending sequence
/// leaves it time-ascending.
pub proof fn lemma_prune_props(s: Seq<HeartbeatData>, cutoff_ms: i64)
    ensures
        forall|i: int|
            0 <= i < prune_spec(s, cutoff_ms).len() ==> within_window(
                (#[trigger] prune_spec(s, cutoff_ms)[i]).time,
                cutoff_ms,
            ),
        forall|i: int|
            0 <= i < prune_spec(s, cutoff_ms).len() ==> exists|j: int|
                0 <= j < s.len() && #[trigger] prune_spec(s, cutoff_ms)[i] == s[j],
        sorted_by_time(s) ==> sorted_by_time(prune_spec(s, cutoff_ms)),
    decreases s.len(),
{
    if s.len() != 0 {
        let dl = s.drop_last();
        lemma_prune_props(dl, cutoff_ms);
        let r = prune_spec(s, cutoff_ms);
        let r2 = prune_spec(dl, cutoff_ms);
        assert forall|i: int|
            0 <= i < r.len() implies exists|j: int| 0 <= j < s.len() && #[trigger] r[i]
            == s[j] by {
            if i < r2.len() {
                let k = choose|k: int| 0 <= k < dl.len() && r2[i] == dl[k];
                assert(r[i] == s[k]);
            } else {
                assert(r[i] == s[s.len() - 1]);
            }
        }
        if sorted_by_time(s) {
            assert(sorted_by_time(dl));
            assert forall|i: int, j: int| 0 <= i < j < r.len() implies time_le(r[i], r[j]) by {
                if j >= r2.len() {
                    assert(r[j] == s[s.len() - 1]);
                    assert(r[i] == r2[i]);
                    let k = choose|k: int| 0 <= k < dl.len() && r2[i] == dl[k];
                    assert(s[k] == dl[k]);
                    assert(time_le(s[k], s[s.len() - 1]));
                }
            }
        }
    }
}

/// The kept records of `v`, in order: the pruned sequence, materialized.
pub fn prune_entries(v: &Vec<HeartbeatEntry>, cutoff_ms: i64) -> (r: Vec<HeartbeatEntry>)
    ensures
        views_of(r@) == prune_spec(views_of(v@), cutoff_ms),
{
    let ghost s = views_of(v@);
    let mut r: Vec<HeartbeatEntry> = Vec::new();
    let mut i: usize = 0;
    proof {
        assert(views_of(r@) =~= prune_spec(s.take(0), cutoff_ms));
    }
    while i < v.len()
        invariant
            i <= v@.len(),
            s == views_of(v@),
            views_of(r@) == prune_spec(s.take(i as int), cutoff_ms),
        decreases v@.len() - i,
    {
        proof {
            assert(s.take(i + 1).drop_last() =~= s.take(i as int));
            assert(s.take(i + 1).last() == s[i as int]);
        }
        if check_within_window(v[i].time.as_str(), cutoff_ms) {
            let e = clone_entry(&v[i]);
            r.push(e);
            proof {
                assert(views_of(r@) =~= prune_spec(s.take(i + 1), cutoff_ms));
            }
        }
        i = i + 1;
    }
    proof {
        assert(s.take(i as int) =~= s);
    }
    r
}

// ── Decoding one raw record ─────────────────────────────────────────

/// What one raw heartbeat record decodes to.  A record missing `status` or
/// `time` (or holding them with the wrong type) decodes to nothing.  The
/// time string gains a `Z` suffix (the service sends times without a zone
/// marker); `ping` may be absent, null, or any JSON number, read through
/// the lossy 32-bit conversion; `msg` may be absent or null.
pub open spec fn spec_parse_entry(v: JsonValue) -> Option<HeartbeatData> {
    let status = match v.spec_get("status"@) {
        Some(sv) => sv.spec_as_i64(),
        None => None,
    };
    let time = match v.spec_get("time"@) {
        Some(tv) => if tv is Str {
            Some(tv->Str_0@)
        } else {
            None
        },
        None => None,
    };
    if status is None || time is None {
        None
    } else {
        let ping = match v.spec_get("ping"@) {
            Some(pv) => match pv {
                JsonValue::Num { approx, .. } => Some(approx),
                _ => None,
            },
            None => None,
        };
        let msg = match v.spec_get("msg"@) {
            Some(mv) => if mv is Str {
                Some(mv->Str_0@)
            } else {
                None
            },
            None => None,
        };
        Some(
            HeartbeatData {
                status: status->0 as i32,
                time: time->0.push('Z'),
                ping,
                msg,
            },
        )
    }
}

/// Decodes one raw heartbeat record, dropping it when `status` or `time`
/// is missing or malformed.
pub fn parse_heartbeat_entry(v: &JsonValue) -> (r: Option<HeartbeatEntry>)
    ensures
        match r {
            Some(e) => spec_parse_entry(*v) == Some(e@),
            None => spec_parse_entry(*v) is None,
        },
{
    let status64: i64 = match v.get("status") {
        Some(sv) => match sv.as_i64() {
            Some(n) => n,
            None => {
                return None;
            },
        },
        None => {
            return None;
        },
    };
    let time: String = match v.get("time") {
        Some(tv) => match tv.as_str() {
            Some(s) => {
                let mut t = s.clone();
                t.push('Z');
                t
            },
            None => {
                return None;
            },
        },
        None => {
            return None;
        },
    };
    let ping: Option<i32> = match v.get("ping") {
        Some(pv) => pv.as_i32_lossy(),
        None => None,
    };
    let msg: Option<String> = match v.get("msg") {
        Some(mv) => match mv.as_str() {
            Some(s) => Some(s.clone()),
            None => None,
        },
        None => None,
    };
    Some(HeartbeatEntry { status: #[verifier::truncate] (status64 as i32), time, ping, msg })
}

} // verus!
