use ya_market_shim::activation::{Activation, ActivationAction, ActivationEvent, Phase};
use ya_market_shim::admin_url::{admin_base_url, import_key_url, import_url_from_rebased, ADMIN_BASE_URL, ADMIN_IMPORT_PATH};
use ya_market_shim::error::ExportError;
use ya_market_shim::export::{
    export_body, export_key_request, export_keys, frame_key_array, key_list_result, prepare_export,
    AppKeyEntry, ExportedKey,
};
use ya_market_shim::lookup::{agreement_reply, LookupOutcome, LookupStage};

fn entry(key: &str, identity: &str) -> AppKeyEntry {
    AppKeyEntry { key: key.to_string(), identity: identity.to_string() }
}

fn client_error() -> ya_client::Error {
    ya_client::Error::from(url::ParseError::EmptyHost)
}

#[test]
fn lookup_returns_the_fetched_agreement() {
    let r = agreement_reply(LookupOutcome::Fetched("agreement-X".to_string()));
    assert_eq!(r.unwrap(), "agreement-X");
}

#[test]
fn lookup_failure_is_a_domain_error() {
    let r = agreement_reply::<String>(LookupOutcome::FetchFailed(client_error()));
    let e = r.unwrap_err();
    assert_eq!(e.stage, LookupStage::Fetch);
    assert!(matches!(e.cause, ya_client::Error::UrlParseError(url::ParseError::EmptyHost)));
}

#[test]
fn lookup_failure_names_each_step() {
    let a = agreement_reply::<String>(LookupOutcome::ClientFailed(client_error())).unwrap_err();
    let b = agreement_reply::<String>(LookupOutcome::InterfaceFailed(client_error())).unwrap_err();
    assert_eq!(a.stage, LookupStage::ClientBuild);
    assert_eq!(b.stage, LookupStage::Interface);
}

#[test]
fn key_request_is_first_page_of_ten() {
    let r = export_key_request();
    assert!(r.identity.is_none());
    assert_eq!(r.page, 1);
    assert_eq!(r.per_page, 10);
}

#[test]
fn exported_keys_keep_order_and_fields() {
    let keys = vec![entry("a", "n1"), entry("b", "n2")];
    let e = export_keys(&keys);
    assert_eq!(e.len(), 2);
    assert_eq!(e[0].key, "a");
    assert_eq!(e[0].node_id, "n1");
    assert_eq!(e[1].key, "b");
    assert_eq!(e[1].node_id, "n2");
}

#[test]
fn payload_of_two_keys() {
    let keys = vec![entry("a", "n1"), entry("b", "n2")];
    let body = export_body(&export_keys(&keys));
    assert_eq!(body, r#"[{"key":"a","nodeId":"n1"},{"key":"b","nodeId":"n2"}]"#);
}

#[test]
fn payload_of_no_keys_is_empty_array() {
    let body = export_body(&Vec::<ExportedKey>::new());
    assert_eq!(body, "[]");
}

#[test]
fn payload_escapes_values() {
    let keys = vec![entry("q\"k", "line\nbreak")];
    let body = export_body(&export_keys(&keys));
    assert_eq!(body, r#"[{"key":"q\"k","nodeId":"line\nbreak"}]"#);
}

#[test]
fn payload_escapes_controls_and_backslash() {
    let keys = vec![entry("t\tb\\", "\u{1}\u{1f}\r\u{8}\u{c}"), entry("é/", "")];
    let body = export_body(&export_keys(&keys));
    assert_eq!(
        body,
        r#"[{"key":"t\tb\\","nodeId":"\u0001\u001f\r\b\f"},{"key":"é/","nodeId":""}]"#
    );
}

#[test]
fn admin_base_is_local_port() {
    let base = admin_base_url().unwrap();
    assert_eq!(base.as_str(), "http://127.0.0.1:5001/");
}

#[test]
fn frame_takes_literals_as_given() {
    let items = vec![("\"x\"".to_string(), "1".to_string()), ("2".to_string(), "\"y\"".to_string())];
    assert_eq!(frame_key_array(&items), r#"[{"key":"x","nodeId":1},{"key":2,"nodeId":"y"}]"#);
    assert_eq!(frame_key_array(&Vec::new()), "[]");
}

#[test]
fn import_url_path_and_authority() {
    let target = import_key_url().unwrap();
    let parsed = url::Url::parse(&target).unwrap();
    assert_eq!(parsed.path(), "/admin/import-key");
    assert_eq!(target, "http://127.0.0.1:5001/admin/import-key");
}

#[test]
fn import_url_replaces_rebased_path() {
    let rebased = url::Url::parse("http://127.0.0.1:5001/market-api/v1/").unwrap();
    assert_eq!(import_url_from_rebased(rebased), "http://127.0.0.1:5001/admin/import-key");
    assert_eq!(ADMIN_BASE_URL, "http://127.0.0.1:5001");
    assert_eq!(ADMIN_IMPORT_PATH, "admin/import-key");
}

#[test]
fn prepared_export_of_two_keys() {
    let keys = vec![entry("a", "n1"), entry("b", "n2")];
    let (target, body) = prepare_export(&keys).unwrap();
    assert_eq!(target, "http://127.0.0.1:5001/admin/import-key");
    assert_eq!(body, r#"[{"key":"a","nodeId":"n1"},{"key":"b","nodeId":"n2"}]"#);
}

#[test]
fn prepared_export_of_no_keys_still_posts() {
    let (target, body) = prepare_export(&Vec::new()).unwrap();
    assert_eq!(target, "http://127.0.0.1:5001/admin/import-key");
    assert_eq!(body, "[]");
}

#[test]
fn listing_errors_flatten() {
    let ok = key_list_result::<u32>(Ok(Ok(7))).unwrap();
    assert_eq!(ok, 7);
    let inner = key_list_result::<u32>(Ok(Err("service".to_string()))).unwrap_err();
    assert!(matches!(inner, ExportError::KeyList(ref m) if m == "service"));
    let outer = key_list_result::<u32>(Err("transport".to_string())).unwrap_err();
    assert!(matches!(outer, ExportError::KeyList(ref m) if m == "transport"));
}

#[test]
fn activation_survives_failed_export() {
    let s = Activation::new();
    let (s, a) = s.step(ActivationEvent::Started);
    assert!(matches!(a, ActivationAction::BindHandler));
    let (s, a) = s.step(ActivationEvent::HandlerBound);
    assert!(matches!(a, ActivationAction::ExportKeys));
    let failed = key_list_result::<u32>(Err("no app-key service".to_string())).map(|_| ());
    let (s, a) = s.step(ActivationEvent::ExportDone(failed));
    assert_eq!(s.phase, Phase::Activated);
    assert!(s.handler_bound);
    assert!(matches!(a, ActivationAction::Finish(Some(ExportError::KeyList(_)))));
    let reply = agreement_reply(LookupOutcome::Fetched(5u32));
    assert_eq!(reply.unwrap(), 5);
}

#[test]
fn activation_after_successful_export() {
    let (s, _) = Activation::new().step(ActivationEvent::Started);
    let (s, _) = s.step(ActivationEvent::HandlerBound);
    let (s, a) = s.step(ActivationEvent::ExportDone(Ok(())));
    assert_eq!(s.phase, Phase::Activated);
    assert!(matches!(a, ActivationAction::Finish(None)));
    let (t, a) = s.step(ActivationEvent::Started);
    assert_eq!(t, s);
    assert!(matches!(a, ActivationAction::Wait));
}

#[test]
fn events_out_of_order_wait() {
    let s = Activation::new();
    let (t, a) = s.step(ActivationEvent::HandlerBound);
    assert_eq!(t, s);
    assert!(!t.handler_bound);
    assert!(matches!(a, ActivationAction::Wait));
}
