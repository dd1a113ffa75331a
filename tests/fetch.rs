use graphql_router::fetch::{
    FetchConfig, FetchError, FetchErrorKind, FetchEvent, FetchStage, RemoteFetch, DEFAULT_MAX_REDIRECT_NUM,
    DEFAULT_MAX_RETRY_NUM,
};
use graphql_router::redirect::Target;
use graphql_router::remote::RemoteGraphBuilder;

fn target(host: &str, path: &str) -> Target {
    Target {
        scheme: Some("https".to_string()),
        authority: Some(host.to_string()),
        host: Some(host.to_string()),
        path: path.to_string(),
        query: None,
    }
}

fn fresh(retries: usize, redirects: usize) -> RemoteFetch {
    RemoteFetch::start(
        "products".to_string(),
        target("a.test", "/graphql"),
        FetchConfig { max_retry_num: retries, max_redirect_num: redirects },
    )
}

fn status(code: u16) -> FetchEvent {
    FetchEvent::Responded { status: code, location: None }
}

fn redirect_to(code: u16, path: &str) -> FetchEvent {
    FetchEvent::Responded {
        status: code,
        location: Some(Target { scheme: None, authority: None, host: None, path: path.to_string(), query: None }),
    }
}

fn http_error(reason: &str) -> FetchStage {
    FetchStage::Failed(FetchError {
        kind: FetchErrorKind::SubrequestHttpError,
        service: "products".to_string(),
        reason: reason.to_string(),
    })
}

#[test]
fn default_config() {
    let c = FetchConfig::new();
    assert_eq!(c.max_retry_num, 2);
    assert_eq!(c.max_redirect_num, 10);
    assert_eq!(DEFAULT_MAX_RETRY_NUM, 2);
    assert_eq!(DEFAULT_MAX_REDIRECT_NUM, 10);
}

#[test]
fn only_unavailable_spends_every_attempt() {
    let mut f = fresh(3, 10);
    assert_eq!(f.stage, FetchStage::Send);
    f.step(status(503));
    assert_eq!(f.stage, FetchStage::Send);
    f.step(status(503));
    assert_eq!(f.stage, FetchStage::Send);
    assert_eq!(f.url, target("a.test", "/graphql"));
    f.step(status(503));
    assert_eq!(f.stage, http_error(""));
    assert_eq!(f.retry_remain, 0);
}

#[test]
fn zero_attempts_fails_at_once() {
    let f = fresh(0, 10);
    assert_eq!(f.stage, http_error(""));
}

#[test]
fn final_status_reads_body_without_spending() {
    let mut f = fresh(2, 10);
    f.step(status(200));
    assert_eq!(f.stage, FetchStage::ReadBody);
    assert_eq!(f.retry_remain, 2);
    f.step(FetchEvent::BodyParsed);
    assert_eq!(f.stage, FetchStage::Done);
}

#[test]
fn error_status_is_final_too() {
    let mut f = fresh(2, 10);
    f.step(status(500));
    assert_eq!(f.stage, FetchStage::ReadBody);
}

#[test]
fn transport_failures_keep_last_reason() {
    let mut f = fresh(2, 10);
    f.step(FetchEvent::TransportFailed("connection refused".to_string()));
    assert_eq!(f.stage, FetchStage::Send);
    f.step(FetchEvent::TransportFailed("connection reset".to_string()));
    assert_eq!(f.stage, http_error("connection reset"));
}

#[test]
fn unavailable_after_transport_failure_reports_that_failure() {
    let mut f = fresh(2, 10);
    f.step(FetchEvent::TransportFailed("timed out".to_string()));
    f.step(status(503));
    assert_eq!(f.stage, http_error("timed out"));
}

#[test]
fn redirect_chain_within_budget_is_followed() {
    let mut f = fresh(1, 2);
    f.step(redirect_to(301, "/v2/graphql"));
    assert_eq!(f.stage, FetchStage::Send);
    assert_eq!(f.url, target("a.test", "/v2/graphql"));
    f.step(redirect_to(307, "/v3/graphql"));
    assert_eq!(f.url, target("a.test", "/v3/graphql"));
    assert_eq!(f.retry_remain, 1);
    assert_eq!(f.redirect_remain, 0);
    f.step(status(200));
    assert_eq!(f.stage, FetchStage::ReadBody);
    f.step(FetchEvent::BodyParsed);
    assert_eq!(f.stage, FetchStage::Done);
    assert_eq!(f.url, target("a.test", "/v3/graphql"));
}

#[test]
fn redirect_chain_over_budget_fails() {
    let mut f = fresh(2, 1);
    f.step(redirect_to(302, "/v2/graphql"));
    assert_eq!(f.stage, FetchStage::Send);
    f.step(redirect_to(308, "/v3/graphql"));
    assert_eq!(f.stage, http_error("Redirect limit exhausted"));
}

#[test]
fn cross_host_redirect_fails() {
    let mut f = fresh(2, 10);
    f.step(FetchEvent::Responded { status: 303, location: Some(target("evil.test", "/graphql")) });
    assert_eq!(f.stage, http_error("Redirect points to different host"));
    assert_eq!(f.url, target("a.test", "/graphql"));
}

#[test]
fn redirect_without_location_fails() {
    let mut f = fresh(2, 10);
    f.step(status(302));
    assert_eq!(f.stage, http_error("Redirect requested without Location header"));
}

#[test]
fn malformed_body_is_not_retried() {
    let mut f = fresh(2, 10);
    f.step(status(200));
    f.step(FetchEvent::BodyMalformed("expected value at line 1".to_string()));
    let failed = FetchStage::Failed(FetchError {
        kind: FetchErrorKind::SubrequestMalformedResponse,
        service: "products".to_string(),
        reason: "expected value at line 1".to_string(),
    });
    assert_eq!(f.stage, failed);
    f.step(status(200));
    f.step(FetchEvent::BodyParsed);
    assert_eq!(f.stage, failed);
}

#[test]
fn unreadable_body_fails_as_unreachable() {
    let mut f = fresh(2, 10);
    f.step(status(200));
    f.step(FetchEvent::BodyFailed("connection closed".to_string()));
    assert_eq!(f.stage, http_error("connection closed"));
}

#[test]
fn outcome_out_of_turn_changes_nothing() {
    let mut f = fresh(2, 10);
    f.step(FetchEvent::BodyParsed);
    assert_eq!(f.stage, FetchStage::Send);
    assert_eq!(f.retry_remain, 2);
}

#[test]
fn builder_defaults_and_setters() {
    let b = RemoteGraphBuilder::new("reviews".to_string(), target("r.test", "/"));
    assert_eq!(b.name(), "reviews");
    assert_eq!(b.config, FetchConfig::new());
    let b = b.max_retry_num(5).max_redirect_num(0);
    assert_eq!(b.config.max_retry_num, 5);
    assert_eq!(b.config.max_redirect_num, 0);
    let mut f = b.fetch();
    assert_eq!(f.service, "reviews");
    assert_eq!(f.retry_remain, 5);
    f.step(redirect_to(301, "/x"));
    assert_eq!(
        f.stage,
        FetchStage::Failed(FetchError {
            kind: FetchErrorKind::SubrequestHttpError,
            service: "reviews".to_string(),
            reason: "Redirect limit exhausted".to_string(),
        })
    );
}

#[test]
fn response_with_location_header_is_followed() {
    let mut f = fresh(2, 10);
    f.step(FetchEvent::response(301, Some("/v2/graphql")));
    assert_eq!(f.url, target("a.test", "/v2/graphql"));
    f.step(FetchEvent::response(302, Some("https://a.test/v3")));
    assert_eq!(f.url, target("a.test", "/v3"));
    f.step(FetchEvent::response(302, Some("https://b.test/v3")));
    assert_eq!(f.stage, http_error("Redirect points to different host"));
}

#[test]
fn response_without_location_header() {
    assert_eq!(FetchEvent::response(200, None), status(200));
}

#[test]
fn resubmitted_call_ends_alike() {
    let b = RemoteGraphBuilder::new("reviews".to_string(), target("r.test", "/graphql"));
    let outcomes = || {
        vec![
            FetchEvent::TransportFailed("reset".to_string()),
            FetchEvent::response(301, Some("/v2")),
            status(200),
            FetchEvent::BodyParsed,
        ]
    };
    let mut first = b.fetch();
    for e in outcomes() {
        first.step(e);
    }
    let mut second = b.fetch();
    for e in outcomes() {
        second.step(e);
    }
    assert_eq!(first, second);
    assert_eq!(first.stage, FetchStage::Done);
    assert_eq!(first.url, target("r.test", "/v2"));
}
