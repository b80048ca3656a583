//! The ack-based RPC protocol: decoding acknowledgement payloads, judging
//! login and monitor responses, and building request payloads.
//!
//! The service wraps acknowledgements in one or two levels of array
//! nesting; the decoder unwraps both shapes rather than assuming one.

use vstd::prelude::*;

use crate::json::{JsonValue, lemma_obj_get_offset, obj_get_from};

verus! {

/// A failure of an on-demand sync operation, per the protocol's taxonomy:
/// transport or handshake failures, a bound exceeded while waiting, or a
/// malformed or refusing response.
#[derive(Debug)]
pub enum SyncError {
    Connection(String),
    Timeout(String),
    Protocol(String),
}

impl SyncError {
    /// The message this error carries.
    pub open spec fn spec_message(self) -> Seq<char> {
        match self {
            SyncError::Connection(m) => m@,
            SyncError::Timeout(m) => m@,
            SyncError::Protocol(m) => m@,
        }
    }

    /// The message this error carries.
    pub fn message(&self) -> (m: &String)
        ensures
            m@ == self.spec_message(),
    {
        match self {
            SyncError::Connection(m) => m,
            SyncError::Timeout(m) => m,
            SyncError::Protocol(m) => m,
        }
    }
}

// ── Acknowledgement decoding ────────────────────────────────────────

/// One unwrapping step of the ack pointer: element zero of an array, or
/// the value under the key `"0"` of an object.
pub open spec fn spec_unwrap_step(v: JsonValue) -> Option<JsonValue> {
    match v {
        JsonValue::Arr(a) => if a@.len() > 0 {
            Some(a@[0])
        } else {
            None
        },
        JsonValue::Obj(_) => v.spec_get("0"@),
        _ => None,
    }
}

/// What the ack payload decodes to: the doubly nested element when the
/// first element unwraps once more, else the first element itself; nothing
/// when the payload is empty.
pub open spec fn spec_decode_ack(values: Seq<JsonValue>) -> Option<JsonValue> {
    if values.len() == 0 {
        None
    } else {
        match spec_unwrap_step(values[0]) {
            Some(inner) => Some(inner),
            None => Some(values[0]),
        }
    }
}

/// Unwraps an acknowledgement payload, accepting both the singly and the
/// doubly nested shape the service produces.
pub fn decode_ack(values: &Vec<JsonValue>) -> (r: Option<&JsonValue>)
    ensures
        match r {
            Some(v) => spec_decode_ack(values@) == Some(*v),
            None => spec_decode_ack(values@) is None,
        },
{
    if values.len() == 0 {
        return None;
    }
    let v0 = &values[0];
    match v0 {
        JsonValue::Arr(a) => if a.len() > 0 {
            Some(&a[0])
        } else {
            Some(v0)
        },
        JsonValue::Obj(_) => match v0.get("0") {
            Some(inner) => Some(inner),
            None => Some(v0),
        },
        _ => Some(v0),
    }
}

// ── Response judgement ──────────────────────────────────────────────

/// Whether a response's `ok` field is the boolean `true`.
pub open spec fn spec_ok_flag(v: JsonValue) -> bool {
    match v.spec_get("ok"@) {
        Some(b) => b == JsonValue::Bool(true),
        None => false,
    }
}

/// The server message of a response, with the fallback the protocol uses
/// when none is present.
pub open spec fn spec_err_msg(v: JsonValue) -> Seq<char> {
    match v.spec_get("msg"@) {
        Some(m) => if m is Str {
            m->Str_0@
        } else {
            "Unknown error"@
        },
        None => "Unknown error"@,
    }
}

/// The monitor id a response carries, when it carries one.
pub open spec fn spec_monitor_id(v: JsonValue) -> Option<i64> {
    match v.spec_get("monitorID"@) {
        Some(x) => x.spec_as_i64(),
        None => None,
    }
}

/// The server message of a response, or the protocol's fallback.
fn error_msg(resp: &JsonValue) -> (m: String)
    ensures
        m@ == spec_err_msg(*resp),
{
    match resp.get("msg") {
        Some(mv) => match mv.as_str() {
            Some(s) => s.clone(),
            None => "Unknown error".to_owned(),
        },
        None => "Unknown error".to_owned(),
    }
}

/// Whether a response's `ok` field is the boolean `true`.
fn ok_flag(resp: &JsonValue) -> (r: bool)
    ensures
        r == spec_ok_flag(*resp),
{
    match resp.get("ok") {
        Some(bv) => match bv.as_bool() {
            Some(b) => b,
            None => false,
        },
        None => false,
    }
}

/// Judges a login response: accepted exactly when `ok` is `true`, else a
/// protocol error surfacing the server's message.
pub fn check_login_response(resp: &JsonValue) -> (r: Result<(), SyncError>)
    ensures
        r is Ok <==> spec_ok_flag(*resp),
        r matches Err(e) ==> e matches SyncError::Protocol(m) && m@ == "Login failed: "@
            + spec_err_msg(*resp),
{
    if ok_flag(resp) {
        Ok(())
    } else {
        let mut m = "Login failed: ".to_owned();
        m.push_str(error_msg(resp).as_str());
        Err(SyncError::Protocol(m))
    }
}

/// Judges an add/edit response: the assigned monitor id when `ok` is
/// `true` and the response carries one; a protocol error naming the event
/// and the server's message when `ok` is not `true`; a protocol error
/// naming the missing field when the id is absent.
pub fn extract_monitor_id(resp: &JsonValue, event: &str) -> (r: Result<i32, SyncError>)
    ensures
        spec_ok_flag(*resp) && spec_monitor_id(*resp) is Some ==> (r matches Ok(id) && id == (
        spec_monitor_id(*resp)->0 as i32)),
        !spec_ok_flag(*resp) ==> (r matches Err(e) && e matches SyncError::Protocol(m) && m@
            == event@ + " failed: "@ + spec_err_msg(*resp)),
        spec_ok_flag(*resp) && spec_monitor_id(*resp) is None ==> (r matches Err(e) && e matches
            SyncError::Protocol(m) && m@ == "Missing monitorID in "@ + event@ + " response"@),
{
    if !ok_flag(resp) {
        let mut m = event.to_owned();
        m.push_str(" failed: ");
        m.push_str(error_msg(resp).as_str());
        proof {
            assert(m@ =~= event@ + " failed: "@ + spec_err_msg(*resp));
        }
        return Err(SyncError::Protocol(m));
    }
    let id64: i64 = match resp.get("monitorID") {
        Some(idv) => match idv.as_i64() {
            Some(n) => n,
            None => {
                return Err(missing_monitor_id(event));
            },
        },
        None => {
            return Err(missing_monitor_id(event));
        },
    };
    Ok(#[verifier::truncate] (id64 as i32))
}

/// The error for a response that lacks its monitor id.
fn missing_monitor_id(event: &str) -> (e: SyncError)
    ensures
        e matches SyncError::Protocol(m) && m@ == "Missing monitorID in "@ + event@
            + " response"@,
{
    let mut m = "Missing monitorID in ".to_owned();
    m.push_str(event);
    m.push_str(" response");
    proof {
        assert(m@ =~= "Missing monitorID in "@ + event@ + " response"@);
    }
    SyncError::Protocol(m)
}

// ── Request payloads ────────────────────────────────────────────────

/// The login payload: the credentials and an empty token, as the service's
/// login call expects them.
pub fn login_payload(username: &str, password: &str) -> (p: JsonValue)
    ensures
        p is Obj,
        p->Obj_0@.len() == 3,
        p.spec_get("username"@) matches Some(v) && v is Str && v->Str_0@ == username@,
        p.spec_get("password"@) matches Some(v) && v is Str && v->Str_0@ == password@,
        p.spec_get("token"@) matches Some(v) && v is Str && v->Str_0@ == ""@,
{
    let mut entries: Vec<(String, JsonValue)> = Vec::new();
    entries.push(("username".to_owned(), JsonValue::Str(username.to_owned())));
    entries.push(("password".to_owned(), JsonValue::Str(password.to_owned())));
    entries.push(("token".to_owned(), JsonValue::Str("".to_owned())));
    let p = JsonValue::Obj(entries);
    proof {
        reveal_strlit("username");
        reveal_strlit("password");
        reveal_strlit("token");
        assert(entries@[0].0@ == "username"@);
        assert(entries@[1].0@ == "password"@);
        assert(entries@[2].0@ == "token"@);
        assert("username"@[0] == 'u' && "password"@[0] == 'p' && "token"@[0] == 't');
        assert(entries@[0].0@ != "password"@);
        assert(entries@[0].0@ != "token"@);
        assert(entries@[1].0@ != "token"@);
        assert(obj_get_from(entries@, "password"@, 1) == Some(entries@[1].1));
        assert(obj_get_from(entries@, "password"@, 0) == obj_get_from(entries@, "password"@, 1));
        assert(obj_get_from(entries@, "token"@, 2) == Some(entries@[2].1));
        assert(obj_get_from(entries@, "token"@, 1) == obj_get_from(entries@, "token"@, 2));
        assert(obj_get_from(entries@, "token"@, 0) == obj_get_from(entries@, "token"@, 1));
    }
    p
}

/// The monitor payload extended with the id of the existing monitor to
/// edit.  The id is placed ahead of the other fields; everything else is
/// untouched.
pub fn monitor_with_id(monitor: JsonValue, id: i32) -> (r: JsonValue)
    requires
        monitor is Obj,
        monitor.spec_get("id"@) is None,
    ensures
        r is Obj,
        r.spec_get("id"@) == Some(JsonValue::Num { exact: Some(id as i64), approx: id }),
        forall|k: Seq<char>| k != "id"@ ==> #[trigger] r.spec_get(k) == monitor.spec_get(k),
{
    match monitor {
        JsonValue::Obj(mut entries) => {
            let ghost before = entries@;
            entries.insert(0, ("id".to_owned(), JsonValue::Num { exact: Some(id as i64), approx: id }));
            let r = JsonValue::Obj(entries);
            proof {
                assert(entries@.drop_first() =~= before);
                assert forall|k: Seq<char>| k != "id"@ implies #[trigger] r.spec_get(k)
                    == monitor.spec_get(k) by {
                    lemma_obj_get_offset(entries@, k, 1);
                }
            }
            r
        },
        _ => monitor,
    }
}

} // verus!
