use std::cell::RefCell;

use dyndns::handler::{handle_update, ServiceConfig};
use dyndns::provider::{MockPorkbun, PorkbunAPI, ProviderError};
use dyndns::reconcile::{reconcile, OpKind, ReconciliationResult, Status};
use dyndns::records::{ObservedAddress, RecordSpec, RecordType, UpdateRequest};
use dyndns::response::to_http;

fn config(domain: &str, token: Option<&str>) -> ServiceConfig {
    ServiceConfig { domain: domain.to_string(), token: token.map(|s| s.to_string()) }
}

fn request(
    token: Option<&str>,
    subdomain: Option<&str>,
    a: Option<&str>,
    aaaa: Option<&str>,
    txt: Option<&str>,
    clear: Option<bool>,
) -> UpdateRequest {
    UpdateRequest {
        token: token.map(|s| s.to_string()),
        subdomain: subdomain.map(|s| s.to_string()),
        a: a.map(|s| s.to_string()),
        aaaa: aaaa.map(|s| s.to_string()),
        txt: txt.map(|s| s.to_string()),
        clear,
    }
}

fn observed_v4() -> ObservedAddress {
    ObservedAddress { ipv4: true, text: "203.0.113.9".to_string() }
}

/// A provider that accepts every call until the `fail_at`-th one (1-based),
/// which it rejects.
struct FailingProvider {
    calls: RefCell<usize>,
    fail_at: usize,
}

impl FailingProvider {
    fn new(fail_at: usize) -> Self {
        FailingProvider { calls: RefCell::new(0), fail_at }
    }

    fn calls_made(&self) -> usize {
        *self.calls.borrow()
    }

    fn step(&self) -> Result<String, ProviderError> {
        let mut calls = self.calls.borrow_mut();
        *calls += 1;
        if *calls == self.fail_at {
            Err(ProviderError::Remote)
        } else {
            Ok(String::new())
        }
    }
}

impl PorkbunAPI for FailingProvider {
    fn create_record(&self, _s: &str, _t: &str, _c: &str) -> Result<String, ProviderError> {
        self.step()
    }

    fn get_record(&self, _s: &str, _t: &str) -> Result<String, ProviderError> {
        self.step()
    }

    fn update_record(&self, _s: &str, _t: &str, _c: &str) -> Result<String, ProviderError> {
        self.step()
    }

    fn delete_record(&self, _s: &str, _t: &str, _c: &str) -> Result<String, ProviderError> {
        self.step()
    }
}

#[test]
fn wrong_token_is_unauthorized() {
    let provider = MockPorkbun::new("example.com".to_string());
    let cfg = config("example.com", Some("secret"));
    let req = request(Some("wrong"), Some("host"), Some("198.51.100.1"), None, None, Some(true));
    let (result, log) = handle_update(&provider, &cfg, &req, &observed_v4());
    assert_eq!(result.status, Status::Unauthorized);
    assert_eq!(result.domain, "");
    assert!(result.records.is_empty());
    assert!(result.clear);
    assert!(log.is_empty());
}

#[test]
fn absent_token_is_unauthorized() {
    let provider = MockPorkbun::new("example.com".to_string());
    let cfg = config("example.com", Some("secret"));
    let req = request(None, None, None, None, None, None);
    let (result, log) = handle_update(&provider, &cfg, &req, &observed_v4());
    assert_eq!(result.status, Status::Unauthorized);
    assert_eq!(result.domain, "");
    assert!(result.records.is_empty());
    assert!(!result.clear);
    assert!(log.is_empty());
}

#[test]
fn matching_token_is_accepted() {
    let provider = MockPorkbun::new("example.com".to_string());
    let cfg = config("example.com", Some("secret"));
    let req = request(Some("secret"), Some("host"), Some("198.51.100.1"), None, None, None);
    let (result, _log) = handle_update(&provider, &cfg, &req, &observed_v4());
    assert_eq!(result.status, Status::Success);
    assert_eq!(result.domain, "host.example.com");
}

#[test]
fn full_domain_includes_base_subdomain() {
    let provider = MockPorkbun::new("example.com".to_string());
    let cfg = config("dyn.example.com", None);
    let req = request(None, Some("host"), Some("198.51.100.1"), None, None, None);
    let (result, _log) = handle_update(&provider, &cfg, &req, &observed_v4());
    assert_eq!(result.status, Status::Success);
    assert_eq!(result.domain, "host.dyn.example.com");
    assert_eq!(result.records.len(), 1);
    assert!(matches!(result.records[0].record_type, RecordType::A));
    assert_eq!(result.records[0].content, "198.51.100.1");
}

#[test]
fn generated_subdomain_is_seven_hex_chars_under_domain() {
    let provider = MockPorkbun::new("example.com".to_string());
    let cfg = config("example.com", None);
    let req = request(None, None, None, None, None, None);
    let (result, _log) = handle_update(&provider, &cfg, &req, &observed_v4());
    assert_eq!(result.status, Status::Success);
    let label = result.domain.strip_suffix(".example.com").expect("domain under zone");
    assert_eq!(label.chars().count(), 7);
    assert!(label.chars().all(|c| c.is_ascii_hexdigit() && !c.is_ascii_uppercase()));
}

#[test]
fn clear_performs_deletes_only() {
    let provider = MockPorkbun::new("example.com".to_string());
    let cfg = config("example.com", None);
    let req = request(None, Some("host"), Some("198.51.100.1"), None, Some("note"), Some(true));
    let (result, log) = handle_update(&provider, &cfg, &req, &observed_v4());
    assert_eq!(result.status, Status::Success);
    assert!(result.clear);
    assert_eq!(log.len(), 2);
    for (i, entry) in log.iter().enumerate() {
        assert_eq!(entry.op, OpKind::Delete);
        assert_eq!(entry.record_index, i);
        assert!(entry.ok);
    }
}

#[test]
fn non_clear_deletes_then_creates_in_order() {
    let provider = MockPorkbun::new("example.com".to_string());
    let cfg = config("example.com", None);
    let req = request(None, Some("host"), Some("198.51.100.1"), None, Some("note"), None);
    let (result, log) = handle_update(&provider, &cfg, &req, &observed_v4());
    assert_eq!(result.status, Status::Success);
    assert!(!result.clear);
    assert_eq!(log.len(), 4);
    let shape: Vec<(usize, OpKind, bool)> =
        log.iter().map(|e| (e.record_index, e.op, e.ok)).collect();
    assert_eq!(
        shape,
        vec![
            (0, OpKind::Delete, true),
            (0, OpKind::Create, true),
            (1, OpKind::Delete, true),
            (1, OpKind::Create, true),
        ]
    );
}

#[test]
fn failure_on_second_record_reports_first_two() {
    // Three records; the second record's delete is the third provider call.
    let provider = FailingProvider::new(3);
    let cfg = config("example.com", None);
    let req = request(
        None,
        Some("host"),
        Some("198.51.100.1"),
        Some("2001:db8::2"),
        Some("note"),
        None,
    );
    let (result, log) = handle_update(&provider, &cfg, &req, &observed_v4());
    assert_eq!(result.status, Status::ProviderError);
    assert_eq!(result.domain, "host.example.com");
    assert_eq!(result.records.len(), 2);
    assert!(matches!(result.records[0].record_type, RecordType::A));
    assert_eq!(result.records[0].content, "198.51.100.1");
    assert!(matches!(result.records[1].record_type, RecordType::Aaaa));
    assert_eq!(result.records[1].content, "2001:db8::2");
    // The first record's two calls were made, in order, before the failing one;
    // the third record was never attempted.
    assert_eq!(provider.calls_made(), 3);
    let shape: Vec<(usize, OpKind, bool)> =
        log.iter().map(|e| (e.record_index, e.op, e.ok)).collect();
    assert_eq!(
        shape,
        vec![(0, OpKind::Delete, true), (0, OpKind::Create, true), (1, OpKind::Delete, false)]
    );
}

#[test]
fn repeating_a_request_yields_identical_results() {
    let provider = MockPorkbun::new("example.com".to_string());
    let cfg = config("example.com", None);
    let req = request(None, Some("host"), Some("198.51.100.1"), None, Some("note"), None);
    let (first, _) = handle_update(&provider, &cfg, &req, &observed_v4());
    let (second, _) = handle_update(&provider, &cfg, &req, &observed_v4());
    assert_eq!(first.status, Status::Success);
    assert_eq!(second.status, Status::Success);
    assert_eq!(first.domain, second.domain);
    let firsts: Vec<(&str, &str)> =
        first.records.iter().map(|r| (r.record_type.name(), r.content.as_str())).collect();
    let seconds: Vec<(&str, &str)> =
        second.records.iter().map(|r| (r.record_type.name(), r.content.as_str())).collect();
    assert_eq!(firsts, seconds);
    assert_eq!(firsts, vec![("A", "198.51.100.1"), ("TXT", "note")]);
}

#[test]
fn reconcile_on_empty_record_set_succeeds() {
    let provider = MockPorkbun::new("example.com".to_string());
    let records: Vec<RecordSpec> = Vec::new();
    let (result, log) = reconcile(
        &provider,
        &"host".to_string(),
        &"host.example.com".to_string(),
        &records,
        false,
    );
    assert_eq!(result.status, Status::Success);
    assert!(result.records.is_empty());
    assert!(log.is_empty());
}

#[test]
fn mock_provider_reports_operation_and_fqdn() {
    let provider = MockPorkbun::new("domain.com".to_string());
    assert_eq!(provider.fqdn("host"), "host.domain.com");
    assert_eq!(provider.create_record("host", "A", "1.2.3.4").unwrap(), "create_record: host.domain.com");
    assert_eq!(provider.get_record("host", "A").unwrap(), "get_record: host.domain.com");
    assert_eq!(provider.update_record("host", "A", "1.2.3.4").unwrap(), "update_record: host.domain.com");
    assert_eq!(provider.delete_record("host", "A", "1.2.3.4").unwrap(), "delete_record: host.domain.com");
}

#[test]
fn http_shape_for_success() {
    let result = ReconciliationResult {
        status: Status::Success,
        domain: "host.example.com".to_string(),
        clear: false,
        records: vec![RecordSpec {
            record_type: RecordType::A,
            content: "198.51.100.1".to_string(),
        }],
    };
    let (code, body) = to_http(&result);
    assert_eq!(code, 200);
    assert_eq!(body.message, "OK");
    assert_eq!(body.domain, "host.example.com");
    assert!(!body.clear);
    assert_eq!(body.records.len(), 1);
    assert_eq!(body.records[0].record_type, "A");
    assert_eq!(body.records[0].content, "198.51.100.1");
}

#[test]
fn http_shape_for_unauthorized() {
    let result = ReconciliationResult {
        status: Status::Unauthorized,
        domain: "".to_string(),
        clear: false,
        records: Vec::new(),
    };
    let (code, body) = to_http(&result);
    assert_eq!(code, 401);
    assert_eq!(body.message, "Unauthorized: Invalid token");
    assert_eq!(body.domain, "");
    assert!(body.records.is_empty());
}

#[test]
fn http_shape_for_provider_error() {
    let result = ReconciliationResult {
        status: Status::ProviderError,
        domain: "host.example.com".to_string(),
        clear: true,
        records: vec![RecordSpec {
            record_type: RecordType::Txt,
            content: "note".to_string(),
        }],
    };
    let (code, body) = to_http(&result);
    assert_eq!(code, 500);
    assert_eq!(body.message, "Internal Server Error");
    assert!(body.clear);
    assert_eq!(body.records.len(), 1);
    assert_eq!(body.records[0].record_type, "TXT");
    assert_eq!(body.records[0].content, "note");
}
