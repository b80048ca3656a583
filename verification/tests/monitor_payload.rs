use uptime_sync::gateway::snapshot_event;
use uptime_sync::json::JsonValue;
use uptime_sync::monitor::{Healthcheck, HealthcheckWithRelations, build_monitor, export_monitor};
use uptime_sync::pagination::{PaginatedResponse, PaginationParams};
use uptime_sync::store::{UptimeEvent, UptimeStore};
use uptime_sync::text::{bytes_le, i32_to_string, parse_i32};

fn sample_healthcheck() -> Healthcheck {
    Healthcheck {
        id: "hc-1".to_string(),
        name: "api health".to_string(),
        application_id: None,
        service_id: None,
        kuma_id: None,
        domain_id: "dom-1".to_string(),
        protocol: "https".to_string(),
        path: "/health".to_string(),
        method: "GET".to_string(),
        headers: None,
        expected_status: 200,
        expected_body: None,
        interval: 60,
        timeout_seconds: 30,
        is_enabled: true,
        notes: None,
        retry: 3,
        retry_interval: 45,
        request_body_encoding: "JSON".to_string(),
        request_body: None,
        http_auth_user: None,
        http_auth_pass: None,
        created_at: "2024-01-01".to_string(),
        updated_at: "2024-01-01".to_string(),
        created_by: None,
    }
}

fn with_relations(hc: Healthcheck) -> HealthcheckWithRelations {
    HealthcheckWithRelations {
        healthcheck: hc,
        application_name: None,
        service_name: None,
        domain_fqdn: "example.com".to_string(),
        parsed_headers: None,
    }
}

fn get_str(m: &JsonValue, key: &str) -> String {
    match m.get(key) {
        Some(JsonValue::Str(s)) => s.clone(),
        _ => panic!("no string under key"),
    }
}

fn get_int(m: &JsonValue, key: &str) -> i64 {
    match m.get(key) {
        Some(JsonValue::Num { exact: Some(n), .. }) => *n,
        _ => panic!("no integer under key"),
    }
}

#[test]
fn monitor_payload_maps_fields_verbatim() {
    let m = build_monitor(&with_relations(sample_healthcheck()));
    assert_eq!(get_str(&m, "type"), "http");
    assert_eq!(get_str(&m, "name"), "api health");
    assert_eq!(get_int(&m, "interval"), 60);
    assert!(matches!(m.get("active"), Some(JsonValue::Bool(true))));
    assert_eq!(get_int(&m, "maxretries"), 3);
    assert_eq!(get_int(&m, "retryInterval"), 45);
    assert_eq!(get_str(&m, "url"), "https://example.com/health");
    assert_eq!(get_int(&m, "timeout"), 30);
    assert_eq!(get_str(&m, "method"), "GET");
    assert_eq!(get_str(&m, "httpBodyEncoding"), "json");
    assert_eq!(get_str(&m, "conditions"), "[]");
    match m.get("accepted_statuscodes") {
        Some(JsonValue::Arr(codes)) => {
            assert_eq!(codes.len(), 1);
            assert!(matches!(&codes[0], JsonValue::Str(s) if s == "200"));
        }
        _ => panic!("missing accepted_statuscodes"),
    }
    assert!(m.get("id").is_none());
    assert!(m.get("description").is_none());
    assert!(m.get("body").is_none());
    assert!(m.get("headers").is_none());
    assert_eq!(get_str(&m, "authMethod"), "null");
    assert!(m.get("basic_auth_user").is_none());
    assert!(m.get("basic_auth_pass").is_none());
}

#[test]
fn monitor_payload_encodings_map_to_markers() {
    let mut hc = sample_healthcheck();
    hc.request_body_encoding = "x-www-form-urlencoded".to_string();
    let m = build_monitor(&with_relations(hc));
    assert_eq!(get_str(&m, "httpBodyEncoding"), "form");

    let mut hc = sample_healthcheck();
    hc.request_body_encoding = "XML".to_string();
    let m = build_monitor(&with_relations(hc));
    assert_eq!(get_str(&m, "httpBodyEncoding"), "xml");
}

#[test]
fn monitor_payload_includes_optional_fields_when_present() {
    let mut hc = sample_healthcheck();
    hc.notes = Some("internal check".to_string());
    hc.request_body = Some("{}".to_string());
    hc.headers = Some("{\"X-Key\":\"v\"}".to_string());
    let m = build_monitor(&with_relations(hc));
    assert_eq!(get_str(&m, "description"), "internal check");
    assert_eq!(get_str(&m, "body"), "{}");
    assert_eq!(get_str(&m, "headers"), "{\"X-Key\":\"v\"}");
}

#[test]
fn monitor_payload_sets_basic_auth_only_with_both_credentials() {
    let mut hc = sample_healthcheck();
    hc.http_auth_user = Some("probe".to_string());
    hc.http_auth_pass = Some("open sesame".to_string());
    let m = build_monitor(&with_relations(hc));
    assert_eq!(get_str(&m, "authMethod"), "basic");
    assert_eq!(get_str(&m, "basic_auth_user"), "probe");
    assert_eq!(get_str(&m, "basic_auth_pass"), "open sesame");

    let mut hc = sample_healthcheck();
    hc.http_auth_user = Some("probe".to_string());
    let m = build_monitor(&with_relations(hc));
    assert_eq!(get_str(&m, "authMethod"), "null");
    assert!(m.get("basic_auth_user").is_none());
}

#[test]
fn export_prefers_the_application_target() {
    let mut hcr = with_relations(sample_healthcheck());
    hcr.application_name = Some("billing".to_string());
    hcr.service_name = Some("billing-api".to_string());
    let row = export_monitor(hcr);
    assert_eq!(row.target_type, "application");
    assert_eq!(row.target_name, "billing");
    assert_eq!(row.url, "https://example.com/health");
    assert_eq!(row.expected_status, 200);
    assert_eq!(row.timeout, 30);

    let mut hcr = with_relations(sample_healthcheck());
    hcr.service_name = Some("billing-api".to_string());
    let row = export_monitor(hcr);
    assert_eq!(row.target_type, "service");
    assert_eq!(row.target_name, "billing-api");

    let row = export_monitor(with_relations(sample_healthcheck()));
    assert_eq!(row.target_type, "service");
    assert_eq!(row.target_name, "");
}

#[test]
fn snapshot_handshake_copies_the_store() {
    let mut store = UptimeStore::new();
    let payload = JsonValue::Obj(vec![(
        "4".to_string(),
        JsonValue::Arr(vec![JsonValue::Obj(vec![
            ("status".to_string(), JsonValue::Num { exact: Some(1), approx: 1 }),
            ("time".to_string(), JsonValue::Str("2099-01-01T00:00:00".to_string())),
        ])]),
    )]);
    store.apply_heartbeat_list(&payload, 0);
    match snapshot_event(&store) {
        UptimeEvent::Snapshot { monitors } => {
            assert_eq!(monitors.len(), 1);
            assert_eq!(monitors[0].kuma_id, 4);
            assert_eq!(monitors[0].heartbeats.len(), 1);
        }
        _ => panic!("expected a snapshot"),
    }
}

#[test]
fn decimal_rendering_matches_standard_formatting() {
    assert_eq!(i32_to_string(0), "0");
    assert_eq!(i32_to_string(200), "200");
    assert_eq!(i32_to_string(-123), "-123");
    assert_eq!(i32_to_string(i32::MIN), "-2147483648");
    assert_eq!(i32_to_string(i32::MAX), "2147483647");
}

#[test]
fn integer_parsing_matches_standard_parsing() {
    assert_eq!(parse_i32("1"), Some(1));
    assert_eq!(parse_i32("+42"), Some(42));
    assert_eq!(parse_i32("-2147483648"), Some(i32::MIN));
    assert_eq!(parse_i32("2147483647"), Some(i32::MAX));
    assert_eq!(parse_i32("2147483648"), None);
    assert_eq!(parse_i32("-2147483649"), None);
    assert_eq!(parse_i32("0012"), Some(12));
    assert_eq!(parse_i32(""), None);
    assert_eq!(parse_i32("+"), None);
    assert_eq!(parse_i32("12a"), None);
    assert_eq!(parse_i32("99999999999999999999"), None);
}

#[test]
fn byte_order_is_lexicographic() {
    assert!(bytes_le(b"2024-01-01T00:00:00Z", b"2024-01-01T00:00:01Z"));
    assert!(!bytes_le(b"2024-01-02", b"2024-01-01"));
    assert!(bytes_le(b"abc", b"abc"));
    assert!(bytes_le(b"ab", b"abc"));
}

#[test]
fn pagination_limits_and_offsets() {
    let params = PaginationParams { page: Some(3), per_page: Some(250), search: None };
    assert_eq!(params.limit(), 100);
    assert_eq!(params.offset(), 200);

    let defaults = PaginationParams { page: None, per_page: None, search: None };
    assert_eq!(defaults.limit(), 50);
    assert_eq!(defaults.offset(), 0);

    let zero_page = PaginationParams { page: Some(0), per_page: Some(10), search: None };
    assert_eq!(zero_page.offset(), 0);
}

#[test]
fn pagination_counts_total_pages() {
    let params = PaginationParams { page: None, per_page: Some(50), search: None };
    let r: PaginatedResponse<u8> = PaginatedResponse::new(Vec::new(), 101, &params);
    assert_eq!(r.total_pages, 3);
    assert_eq!(r.per_page, 50);
    assert_eq!(r.page, 1);

    let r: PaginatedResponse<u8> = PaginatedResponse::new(Vec::new(), 0, &params);
    assert_eq!(r.total_pages, 0);

    let r: PaginatedResponse<u8> = PaginatedResponse::new(Vec::new(), 100, &params);
    assert_eq!(r.total_pages, 2);
}
