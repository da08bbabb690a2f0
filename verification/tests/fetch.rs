use libre_learning::download::{DownloadItem, DownloadState, HttpOutcome};
use libre_learning::request::RequestConfig;

fn config(endpoint: &str, user: &str, password: &str) -> RequestConfig {
    RequestConfig {
        endpoint: String::from(endpoint),
        user_name: String::from(user),
        password: String::from(password),
    }
}

#[test]
fn polling_without_an_endpoint_is_refused_and_starts_nothing() {
    let mut item = DownloadItem::new("card_0.json");
    let empty = RequestConfig::default();
    assert!(!empty.is_initialized());
    let (polled, action) = item.try_fetch_download(&empty);
    assert!(matches!(polled, Err(DownloadState::Null)));
    assert!(action.is_none());
    // the slot is still idle: nothing was started
    assert!(matches!(item.get_download_state(), DownloadState::NotStarted));
}

#[test]
fn polling_idle_starts_exactly_one_request() {
    let mut item = DownloadItem::new("card_0.json");
    let cfg = config("http://host", "", "");
    let (polled, action) = item.try_fetch_download(&cfg);
    // the starting poll already reports the request as pending
    assert!(matches!(polled, Err(DownloadState::InProgress)));
    let request = action.expect("a request must be handed out");
    assert_eq!(request.url, "http://host/card_0.json");
    assert!(request.auth_header.is_none());
    assert!(matches!(item.get_download_state(), DownloadState::InProgress));

    // a second poll while outstanding starts nothing new
    let (pending, again) = item.try_fetch_download(&cfg);
    assert!(matches!(pending, Err(DownloadState::InProgress)));
    assert!(again.is_none());
}

#[test]
fn credentials_are_attached_only_when_both_are_set() {
    let mut item = DownloadItem::new("p");
    let cfg = config("http://host", "user", "pass");
    let (_, action) = item.try_fetch_download(&cfg);
    let request = action.expect("a request must be handed out");
    assert_eq!(request.auth_header.as_deref(), Some("Basic dXNlcjpwYXNz"));

    let mut no_pass = DownloadItem::new("p");
    let (_, action) = no_pass.try_fetch_download(&config("http://host", "user", ""));
    assert!(action.expect("request").auth_header.is_none());
}

#[test]
fn a_successful_response_becomes_done_with_its_bytes() {
    let mut item = DownloadItem::new("p");
    let cfg = config("http://host", "", "");
    item.try_fetch_download(&cfg);
    item.complete(HttpOutcome::Response { ok: true, status: 200, bytes: vec![1, 2, 3] });
    assert!(matches!(item.get_download_state(), DownloadState::Done));
    let (polled, action) = item.try_fetch_download(&cfg);
    assert_eq!(polled.expect("bytes"), vec![1, 2, 3]);
    assert!(action.is_none());
    // terminal states repeat without re-fetching
    let (polled, _) = item.try_fetch_download(&cfg);
    assert_eq!(polled.expect("bytes"), vec![1, 2, 3]);
}

#[test]
fn a_rejected_response_fails_with_its_status_code() {
    let mut item = DownloadItem::new("p");
    let cfg = config("http://host", "", "");
    item.try_fetch_download(&cfg);
    item.complete(HttpOutcome::Response { ok: false, status: 404, bytes: Vec::new() });
    match item.try_fetch_download(&cfg).0 {
        Err(DownloadState::Failed(reason)) => assert_eq!(reason, "404"),
        _ => panic!("expected a failure"),
    }
}

#[test]
fn a_transport_error_fails_with_a_generic_reason() {
    let mut item = DownloadItem::new("p");
    let cfg = config("http://host", "", "");
    item.try_fetch_download(&cfg);
    item.complete(HttpOutcome::TransportError);
    match item.get_download_state() {
        DownloadState::Failed(reason) => assert_eq!(reason, "Error"),
        _ => panic!("expected a failure"),
    }
}

#[test]
fn fetch_download_reports_only_ready_bytes() {
    let mut item = DownloadItem::new("p");
    let cfg = config("http://host", "", "");
    let (bytes, action) = item.fetch_download(&cfg);
    assert!(bytes.is_none());
    assert!(action.is_some());
    item.complete(HttpOutcome::Response { ok: true, status: 204, bytes: vec![9] });
    let (bytes, action) = item.fetch_download(&cfg);
    assert_eq!(bytes.expect("bytes"), vec![9]);
    assert!(action.is_none());
}
