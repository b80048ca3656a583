//! Healthcheck configuration records and the pure mapping from one of them
//! to the external service's monitor payload.

use vstd::prelude::*;

use crate::json::{JsonValue, obj_get_from, lemma_obj_get_push};
use crate::text::{str_eq, spec_i32_digits, i32_to_string};

verus! {

/// Healthcheck entity: one HTTP check for monitoring an endpoint.
pub struct Healthcheck {
    pub id: String,
    pub name: String,
    pub application_id: Option<String>,
    pub service_id: Option<String>,
    pub kuma_id: Option<i32>,
    pub domain_id: String,
    pub protocol: String,
    pub path: String,
    pub method: String,
    pub headers: Option<String>,
    pub expected_status: i32,
    pub expected_body: Option<String>,
    pub interval: i32,
    pub timeout_seconds: i32,
    pub is_enabled: bool,
    pub notes: Option<String>,
    pub retry: i32,
    pub retry_interval: i32,
    pub request_body_encoding: String,
    pub request_body: Option<String>,
    pub http_auth_user: Option<String>,
    pub http_auth_pass: Option<String>,
    pub created_at: String,
    pub updated_at: String,
    pub created_by: Option<String>,
}

/// Input record for creating a healthcheck.
pub struct CreateHealthcheck {
    pub name: String,
    pub application_id: Option<String>,
    pub service_id: Option<String>,
    pub kuma_id: Option<i32>,
    pub domain_id: String,
    pub protocol: String,
    pub path: String,
    pub method: String,
    pub headers: Option<String>,
    pub expected_status: i32,
    pub expected_body: Option<String>,
    pub interval: i32,
    pub timeout_seconds: i32,
    pub is_enabled: bool,
    pub notes: Option<String>,
    pub retry: i32,
    pub retry_interval: i32,
    pub request_body_encoding: String,
    pub request_body: Option<String>,
    pub http_auth_user: Option<String>,
    pub http_auth_pass: Option<String>,
}

/// Input record for updating a healthcheck; unset fields stay untouched.
pub struct UpdateHealthcheck {
    pub name: Option<String>,
    pub application_id: Option<String>,
    pub service_id: Option<String>,
    pub kuma_id: Option<i32>,
    pub domain_id: Option<String>,
    pub protocol: Option<String>,
    pub path: Option<String>,
    pub method: Option<String>,
    pub headers: Option<String>,
    pub expected_status: Option<i32>,
    pub expected_body: Option<String>,
    pub interval: Option<i32>,
    pub timeout_seconds: Option<i32>,
    pub is_enabled: Option<bool>,
    pub notes: Option<String>,
    pub retry: Option<i32>,
    pub retry_interval: Option<i32>,
    pub request_body_encoding: Option<String>,
    pub request_body: Option<String>,
    pub http_auth_user: Option<String>,
    pub http_auth_pass: Option<String>,
}

impl Default for UpdateHealthcheck {
    /// An update that touches nothing.
    fn default() -> (r: UpdateHealthcheck)
        ensures
            r.name is None,
            r.application_id is None,
            r.service_id is None,
            r.kuma_id is None,
            r.domain_id is None,
            r.protocol is None,
            r.path is None,
            r.method is None,
            r.headers is None,
            r.expected_status is None,
            r.expected_body is None,
            r.interval is None,
            r.timeout_seconds is None,
            r.is_enabled is None,
            r.notes is None,
            r.retry is None,
            r.retry_interval is None,
            r.request_body_encoding is None,
            r.request_body is None,
            r.http_auth_user is None,
            r.http_auth_pass is None,
    {
        UpdateHealthcheck {
            name: None,
            application_id: None,
            service_id: None,
            kuma_id: None,
            domain_id: None,
            protocol: None,
            path: None,
            method: None,
            headers: None,
            expected_status: None,
            expected_body: None,
            interval: None,
            timeout_seconds: None,
            is_enabled: None,
            notes: None,
            retry: None,
            retry_interval: None,
            request_body_encoding: None,
            request_body: None,
            http_auth_user: None,
            http_auth_pass: None,
        }
    }
}

/// Lightweight healthcheck relation for detail views.
pub struct HealthcheckRelation {
    pub id: String,
    pub name: String,
    pub protocol: String,
    pub domain_fqdn: String,
    pub path: String,
    pub expected_status: i32,
    pub is_enabled: bool,
    pub kuma_id: Option<i32>,
}

/// Result of probing a healthcheck once.
pub struct HealthcheckExecuteResult {
    pub healthcheck_id: String,
    pub url: String,
    pub success: bool,
    pub status_code: Option<u16>,
    pub response_time_ms: u64,
    pub body_match: Option<bool>,
    pub error: Option<String>,
    pub executed_at: String,
}

/// A healthcheck with its display relations resolved.
pub struct HealthcheckWithRelations {
    pub healthcheck: Healthcheck,
    pub application_name: Option<String>,
    pub service_name: Option<String>,
    pub domain_fqdn: String,
    pub parsed_headers: Option<Vec<(String, String)>>,
}

/// Export form of one healthcheck for the external monitoring service.
pub struct KumaMonitor {
    pub name: String,
    pub url: String,
    pub method: String,
    pub expected_status: i32,
    pub timeout: i32,
    pub headers: Option<Vec<(String, String)>>,
    pub target_type: String,
    pub target_name: String,
}

/// The target URL of a healthcheck: protocol, resolved host, then path.
pub open spec fn spec_url(hc: HealthcheckWithRelations) -> Seq<char> {
    hc.healthcheck.protocol@ + "://"@ + hc.domain_fqdn@ + hc.healthcheck.path@
}

/// The body-encoding marker the service expects for a configured encoding:
/// form, xml, or the default json.
pub open spec fn spec_encoding(e: Seq<char>) -> Seq<char> {
    if e == "x-www-form-urlencoded"@ {
        "form"@
    } else if e == "XML"@ {
        "xml"@
    } else {
        "json"@
    }
}

/// The payload object holds a string `val` under `key`.
pub open spec fn got_str(m: JsonValue, key: Seq<char>, val: Seq<char>) -> bool {
    m.spec_get(key) matches Some(v) && v is Str && v->Str_0@ == val
}

/// The payload object holds the integer `n` under `key`.
pub open spec fn got_int(m: JsonValue, key: Seq<char>, n: i64) -> bool {
    m.spec_get(key) matches Some(v) && (v matches JsonValue::Num { exact, .. } && exact == Some(n))
}

/// The payload object holds the boolean `b` under `key`.
pub open spec fn got_bool(m: JsonValue, key: Seq<char>, b: bool) -> bool {
    m.spec_get(key) == Some(JsonValue::Bool(b))
}

impl HealthcheckWithRelations {
    /// The URL the monitor probes, built from protocol, resolved host and
    /// path.
    pub fn url(&self) -> (r: String)
        ensures
            r@ == spec_url(*self),
    {
        let mut r = self.healthcheck.protocol.clone();
        r.push_str("://");
        r.push_str(self.domain_fqdn.as_str());
        r.push_str(self.healthcheck.path.as_str());
        proof {
            assert(r@ =~= spec_url(*self));
        }
        r
    }
}

/// Maps one healthcheck with its relations to the export row for the
/// external monitoring service: the probe fields verbatim, the built URL,
/// and the owning application as the target when one is linked, else the
/// owning service (with an empty name when neither is named).
pub fn export_monitor(hc: HealthcheckWithRelations) -> (r: KumaMonitor)
    ensures
        r.name == hc.healthcheck.name,
        r.url@ == spec_url(hc),
        r.method == hc.healthcheck.method,
        r.expected_status == hc.healthcheck.expected_status,
        r.timeout == hc.healthcheck.timeout_seconds,
        r.headers == hc.parsed_headers,
        hc.application_name is Some ==> (r.target_type@ == "application"@ && r.target_name
            == hc.application_name->0),
        hc.application_name is None ==> (r.target_type@ == "service"@ && (match hc.service_name {
            Some(s) => r.target_name == s,
            None => r.target_name@ == Seq::<char>::empty(),
        })),
{
    let url = hc.url();
    let (target_type, target_name) = match hc.application_name {
        Some(name) => ("application".to_owned(), name),
        None => match hc.service_name {
            Some(name) => ("service".to_owned(), name),
            None => ("service".to_owned(), String::new()),
        },
    };
    KumaMonitor {
        name: hc.healthcheck.name,
        url,
        method: hc.healthcheck.method,
        expected_status: hc.healthcheck.expected_status,
        timeout: hc.healthcheck.timeout_seconds,
        headers: hc.parsed_headers,
        target_type,
        target_name,
    }
}

/// Appends one field to a payload object under construction.
fn obj_push(entries: &mut Vec<(String, JsonValue)>, key: String, val: JsonValue)
    ensures
        final(entries)@ == old(entries)@.push((key, val)),
        forall|k: Seq<char>|
            #[trigger] obj_get_from(final(entries)@, k, 0) == (if obj_get_from(
                old(entries)@,
                k,
                0,
            ) is Some {
                obj_get_from(old(entries)@, k, 0)
            } else if key@ == k {
                Some(val)
            } else {
                None
            }),
{
    let ghost before = entries@;
    let ghost pair = (key, val);
    entries.push((key, val));
    proof {
        lemma_obj_get_push(before, pair);
    }
}

/// Builds the service's monitor payload for one healthcheck: the fixed
/// fields mapped verbatim, the probe URL, the encoding marker, the
/// accepted status code; description, body and custom headers only when
/// configured; basic authentication only when both credentials are set,
/// else the explicit no-auth marker.  The payload never carries an `id`.
#[verifier::rlimit(100)]
pub fn build_monitor(hc: &HealthcheckWithRelations) -> (m: JsonValue)
    ensures
        m is Obj,
        m->Obj_0@.len() == 12 + (if hc.healthcheck.notes is Some {
            1int
        } else {
            0int
        }) + (if hc.healthcheck.request_body is Some {
            1int
        } else {
            0int
        }) + (if hc.healthcheck.headers is Some {
            1int
        } else {
            0int
        }) + (if hc.healthcheck.http_auth_user is Some && hc.healthcheck.http_auth_pass is Some {
            3int
        } else {
            1int
        }),
        got_str(m, "type"@, "http"@),
        got_str(m, "name"@, hc.healthcheck.name@),
        got_int(m, "interval"@, hc.healthcheck.interval as i64),
        got_bool(m, "active"@, hc.healthcheck.is_enabled),
        got_int(m, "maxretries"@, hc.healthcheck.retry as i64),
        got_int(m, "retryInterval"@, hc.healthcheck.retry_interval as i64),
        got_str(m, "url"@, spec_url(*hc)),
        got_int(m, "timeout"@, hc.healthcheck.timeout_seconds as i64),
        got_str(m, "method"@, hc.healthcheck.method@),
        got_str(m, "httpBodyEncoding"@, spec_encoding(hc.healthcheck.request_body_encoding@)),
        m.spec_get("accepted_statuscodes"@) matches Some(v) && (v matches JsonValue::Arr(a)
            && a@.len() == 1 && (a@[0] matches JsonValue::Str(s) && s@ == spec_i32_digits(
            hc.healthcheck.expected_status as int,
        ))),
        got_str(m, "conditions"@, "[]"@),
        match hc.healthcheck.notes {
            Some(n) => got_str(m, "description"@, n@),
            None => m.spec_get("description"@) is None,
        },
        match hc.healthcheck.request_body {
            Some(b) => got_str(m, "body"@, b@),
            None => m.spec_get("body"@) is None,
        },
        match hc.healthcheck.headers {
            Some(h) => got_str(m, "headers"@, h@),
            None => m.spec_get("headers"@) is None,
        },
        (hc.healthcheck.http_auth_user is Some && hc.healthcheck.http_auth_pass is Some) ==> (
        got_str(m, "authMethod"@, "basic"@) && got_str(
            m,
            "basic_auth_user"@,
            hc.healthcheck.http_auth_user->0@,
        ) && got_str(m, "basic_auth_pass"@, hc.healthcheck.http_auth_pass->0@)),
        !(hc.healthcheck.http_auth_user is Some && hc.healthcheck.http_auth_pass is Some) ==> (
        got_str(m, "authMethod"@, "null"@) && m.spec_get("basic_auth_user"@) is None
            && m.spec_get("basic_auth_pass"@) is None),
        m.spec_get("id"@) is None,
{
    proof {
        reveal_strlit("type");
        reveal_strlit("name");
        reveal_strlit("interval");
        reveal_strlit("active");
        reveal_strlit("maxretries");
        reveal_strlit("retryInterval");
        reveal_strlit("url");
        reveal_strlit("timeout");
        reveal_strlit("method");
        reveal_strlit("httpBodyEncoding");
        reveal_strlit("accepted_statuscodes");
        reveal_strlit("conditions");
        reveal_strlit("description");
        reveal_strlit("body");
        reveal_strlit("headers");
        reveal_strlit("authMethod");
        reveal_strlit("basic_auth_user");
        reveal_strlit("basic_auth_pass");
        reveal_strlit("id");
        assert("type"@.len() == 4 && "type"@[0] == 't');
        assert("name"@.len() == 4 && "name"@[0] == 'n');
        assert("body"@.len() == 4 && "body"@[0] == 'b');
        assert("interval"@.len() == 8 && "interval"@[0] == 'i');
        assert("active"@.len() == 6 && "active"@[0] == 'a');
        assert("method"@.len() == 6 && "method"@[0] == 'm');
        assert("maxretries"@.len() == 10 && "maxretries"@[0] == 'm' && "maxretries"@[1] == 'a');
        assert("conditions"@.len() == 10 && "conditions"@[0] == 'c');
        assert("authMethod"@.len() == 10 && "authMethod"@[0] == 'a');
        assert("retryInterval"@.len() == 13 && "retryInterval"@[0] == 'r');
        assert("url"@.len() == 3 && "url"@[0] == 'u');
        assert("timeout"@.len() == 7 && "timeout"@[0] == 't');
        assert("headers"@.len() == 7 && "headers"@[0] == 'h');
        assert("httpBodyEncoding"@.len() == 16 && "httpBodyEncoding"@[0] == 'h');
        assert("accepted_statuscodes"@.len() == 20 && "accepted_statuscodes"@[0] == 'a');
        assert("description"@.len() == 11 && "description"@[0] == 'd');
        assert("basic_auth_user"@.len() == 15 && "basic_auth_user"@[11] == 'u');
        assert("basic_auth_pass"@.len() == 15 && "basic_auth_pass"@[11] == 'p');
        assert("id"@.len() == 2 && "id"@[0] == 'i');
    }
    let hcr = &hc.healthcheck;
    let encoding: &str = if str_eq(hcr.request_body_encoding.as_str(), "x-www-form-urlencoded") {
        "form"
    } else if str_eq(hcr.request_body_encoding.as_str(), "XML") {
        "xml"
    } else {
        "json"
    };
    let url = hc.url();
    let mut entries: Vec<(String, JsonValue)> = Vec::new();
    obj_push(&mut entries, "type".to_owned(), JsonValue::Str("http".to_owned()));
    obj_push(&mut entries, "name".to_owned(), JsonValue::Str(hcr.name.clone()));
    obj_push(
        &mut entries,
        "interval".to_owned(),
        JsonValue::Num { exact: Some(hcr.interval as i64), approx: hcr.interval },
    );
    obj_push(&mut entries, "active".to_owned(), JsonValue::Bool(hcr.is_enabled));
    obj_push(
        &mut entries,
        "maxretries".to_owned(),
        JsonValue::Num { exact: Some(hcr.retry as i64), approx: hcr.retry },
    );
    obj_push(
        &mut entries,
        "retryInterval".to_owned(),
        JsonValue::Num { exact: Some(hcr.retry_interval as i64), approx: hcr.retry_interval },
    );
    obj_push(&mut entries, "url".to_owned(), JsonValue::Str(url));
    obj_push(
        &mut entries,
        "timeout".to_owned(),
        JsonValue::Num { exact: Some(hcr.timeout_seconds as i64), approx: hcr.timeout_seconds },
    );
    obj_push(&mut entries, "method".to_owned(), JsonValue::Str(hcr.method.clone()));
    obj_push(&mut entries, "httpBodyEncoding".to_owned(), JsonValue::Str(encoding.to_owned()));
    let mut codes: Vec<JsonValue> = Vec::new();
    codes.push(JsonValue::Str(i32_to_string(hcr.expected_status)));
    obj_push(&mut entries, "accepted_statuscodes".to_owned(), JsonValue::Arr(codes));
    obj_push(&mut entries, "conditions".to_owned(), JsonValue::Str("[]".to_owned()));
    match &hcr.notes {
        Some(n) => obj_push(&mut entries, "description".to_owned(), JsonValue::Str(n.clone())),
        None => {},
    }
    match &hcr.request_body {
        Some(b) => obj_push(&mut entries, "body".to_owned(), JsonValue::Str(b.clone())),
        None => {},
    }
    match &hcr.headers {
        Some(h) => obj_push(&mut entries, "headers".to_owned(), JsonValue::Str(h.clone())),
        None => {},
    }
    let has_auth = hcr.http_auth_user.is_some() && hcr.http_auth_pass.is_some();
    if has_auth {
        match (&hcr.http_auth_user, &hcr.http_auth_pass) {
            (Some(user), Some(pass)) => {
                obj_push(&mut entries, "authMethod".to_owned(), JsonValue::Str("basic".to_owned()));
                obj_push(&mut entries, "basic_auth_user".to_owned(), JsonValue::Str(user.clone()));
                obj_push(&mut entries, "basic_auth_pass".to_owned(), JsonValue::Str(pass.clone()));
            },
            _ => {},
        }
    } else {
        obj_push(&mut entries, "authMethod".to_owned(), JsonValue::Str("null".to_owned()));
    }
    JsonValue::Obj(entries)
}

} // verus!
