use yuribot::purge_links::{LinkProbe, ProbeEvent, ProbeOutcome, PurgeError, MAX_ATTEMPTS};
use yuribot::uri::parse_uri;

fn response(status: u16, location: Option<&str>) -> ProbeEvent {
    ProbeEvent::Response { status, location: location.map(|l| l.as_bytes().to_vec()) }
}

#[test]
fn live_on_success() {
    let mut p = LinkProbe::start("https://a.example/img.png", 1).unwrap();
    assert_eq!(p.request_uri(), "https://a.example/img.png");
    assert_eq!(p.on_event(response(200, None)), Some(ProbeOutcome::Live));
}

#[test]
fn dead_on_first_404_without_retry() {
    let mut p = LinkProbe::start("https://a.example/gone.png", 7).unwrap();
    assert_eq!(p.on_event(response(404, None)), Some(ProbeOutcome::Dead));
    assert_eq!(p.attempts(), 1);
}

#[test]
fn relative_redirect_keeps_authority() {
    let mut p = LinkProbe::start("https://a.example/old", 1).unwrap();
    assert_eq!(p.on_event(response(301, Some("/new/path"))), None);
    assert_eq!(p.request_uri(), "https://a.example/new/path");
    assert_eq!(p.hops(), 1);
}

#[test]
fn absolute_redirect_is_taken_as_is() {
    let mut p = LinkProbe::start("https://a.example/old", 1).unwrap();
    assert_eq!(p.on_event(response(302, Some("http://b.example/x?y=1"))), None);
    assert_eq!(p.request_uri(), "http://b.example/x?y=1");
}

#[test]
fn ten_redirects_then_success_is_live() {
    let mut p = LinkProbe::start("https://a.example/0", 1).unwrap();
    for i in 1..=10 {
        let next = format!("https://a.example/{}", i);
        assert_eq!(p.on_event(response(301, Some(&next))), None);
        assert_eq!(p.request_uri(), next);
    }
    assert_eq!(p.on_event(response(200, None)), Some(ProbeOutcome::Live));
}

#[test]
fn eleven_redirects_is_indeterminate() {
    let mut p = LinkProbe::start("https://a.example/0", 1).unwrap();
    for i in 1..=10 {
        assert_eq!(p.on_event(response(301, Some(&format!("https://a.example/{}", i)))), None);
    }
    assert_eq!(
        p.on_event(response(301, Some("https://a.example/11"))),
        Some(ProbeOutcome::Indeterminate(PurgeError::TooManyRedirects))
    );
}

#[test]
fn server_error_every_time_gives_up_after_five_attempts() {
    let mut p = LinkProbe::start("https://a.example/img.png", 42).unwrap();
    let mut requests = 0;
    let outcome = loop {
        requests += 1;
        if let Some(o) = p.on_event(response(500, None)) {
            break o;
        }
        assert_eq!(p.request_uri(), "https://a.example/img.png");
    };
    assert_eq!(requests, 5);
    assert_eq!(MAX_ATTEMPTS, 5);
    assert_eq!(
        outcome,
        ProbeOutcome::Indeterminate(PurgeError::UnexpectedStatusCode(
            500,
            "https://a.example/img.png".to_string(),
            42
        ))
    );
}

#[test]
fn retry_restarts_from_the_link() {
    let mut p = LinkProbe::start("https://a.example/a", 3).unwrap();
    assert_eq!(p.on_event(response(301, Some("/b"))), None);
    assert_eq!(p.on_event(response(503, None)), None);
    assert_eq!(p.attempts(), 2);
    assert_eq!(p.hops(), 0);
    assert_eq!(p.request_uri(), "https://a.example/a");
}

#[test]
fn redirect_without_location_is_a_failed_attempt() {
    let mut p = LinkProbe::start("https://a.example/a", 3).unwrap();
    assert_eq!(p.on_event(response(302, None)), None);
    assert_eq!(p.attempts(), 2);
}

#[test]
fn transport_failures_count_as_attempts() {
    let mut p = LinkProbe::start("https://a.example/a", 3).unwrap();
    for _ in 0..4 {
        assert_eq!(p.on_event(ProbeEvent::TransportFailure), None);
    }
    assert_eq!(
        p.on_event(ProbeEvent::TransportFailure),
        Some(ProbeOutcome::Indeterminate(PurgeError::LinkCheck))
    );
}

#[test]
fn unparsable_link_and_location() {
    assert_eq!(LinkProbe::start("", 1).err(), Some(PurgeError::InvalidUri));
    assert_eq!(LinkProbe::start("https://a b/", 1).err(), Some(PurgeError::InvalidUri));
    let mut p = LinkProbe::start("https://a.example/a", 3).unwrap();
    assert_eq!(
        p.on_event(response(301, Some("https://bad host/"))),
        Some(ProbeOutcome::Indeterminate(PurgeError::InvalidUri))
    );
}

#[test]
fn relative_redirect_from_authority_only_uri_is_invalid_parts() {
    let mut p = LinkProbe::start("a.example", 3).unwrap();
    assert_eq!(
        p.on_event(response(301, Some("/x"))),
        Some(ProbeOutcome::Indeterminate(PurgeError::InvalidUriParts))
    );
}

#[test]
fn parse_uri_splits_components() {
    let u = parse_uri(b"https://a.example:8080/p/q?x=1").unwrap();
    assert_eq!(u.scheme.as_deref(), Some("https"));
    assert_eq!(u.authority.as_deref(), Some("a.example:8080"));
    assert_eq!(u.path_and_query.as_deref(), Some("/p/q?x=1"));
    let r = parse_uri(b"/new/path").unwrap();
    assert_eq!(r.scheme, None);
    assert_eq!(r.authority, None);
    assert_eq!(r.path_and_query.as_deref(), Some("/new/path"));
    assert!(parse_uri(b"").is_none());
    assert_eq!(u.to_text(), "https://a.example:8080/p/q?x=1");
}
