use gitpulse::cache::{CacheAge, CacheProbe};
use gitpulse::day::ContributionDay;
use gitpulse::flow::{fetch_contributions, FetchAction, FetchEvent, FetchState};
use gitpulse::request::{ENDPOINT, QUERY};

const TWO_WEEKS: &str = r#"{
  "data": { "user": { "contributionsCollection": { "contributionCalendar": { "weeks": [
    { "contributionDays": [
        { "date": "2024-01-01", "contributionCount": 3 },
        { "date": "2024-01-02", "contributionCount": 0 }
    ] },
    { "contributionDays": [
        { "date": "2024-01-08", "contributionCount": 12 }
    ] }
  ] } } } }
}"#;

fn pairs(days: &[ContributionDay]) -> Vec<(String, i32)> {
    days.iter().map(|d| (d.date().clone(), d.contribution_count())).collect()
}

fn expect_send(state: &FetchState) -> gitpulse::request::ApiRequest {
    match state.action() {
        FetchAction::Send(request) => request,
        _ => panic!("the request was expected"),
    }
}

fn expect_finish(state: &FetchState) -> gitpulse::day::FetchResult {
    match state.action() {
        FetchAction::Finish(result) => result,
        _ => panic!("the end of the run was expected"),
    }
}

fn answered(body: &str) -> FetchState {
    let state = fetch_contributions("octocat".to_string(), None);
    let state = state.step(FetchEvent::Probed(CacheProbe::Missing));
    let state = state.step(FetchEvent::Status { code: 200, text: "200 OK".to_string() });
    assert!(matches!(state.action(), FetchAction::ReadBody));
    state.step(FetchEvent::Body(Ok(body.as_bytes().to_vec())))
}

#[test]
fn a_run_begins_by_looking_for_the_cache_file() {
    let state = fetch_contributions("octocat".to_string(), None);
    match state.action() {
        FetchAction::ProbeCache(path) => {
            assert_eq!(path.dir, "cache");
            assert_eq!(path.file, "octocat_contributions.json");
        }
        _ => panic!("the probe was expected"),
    }
}

#[test]
fn cold_run_fetches_flattens_and_stores() {
    let state = fetch_contributions("octocat".to_string(), None);
    let state = state.step(FetchEvent::Probed(CacheProbe::Missing));
    let request = expect_send(&state);
    assert_eq!(request.method, "POST");
    assert_eq!(request.url, ENDPOINT);
    assert_eq!(request.headers.len(), 2);
    let state = state.step(FetchEvent::Status { code: 200, text: "200 OK".to_string() });
    assert!(matches!(state.action(), FetchAction::ReadBody));
    let state = state.step(FetchEvent::Body(Ok(TWO_WEEKS.as_bytes().to_vec())));
    let expected = vec![
        ("2024-01-01".to_string(), 3),
        ("2024-01-02".to_string(), 0),
        ("2024-01-08".to_string(), 12),
    ];
    match state.action() {
        FetchAction::StoreCache { path, days } => {
            assert_eq!(path.dir, "cache");
            assert_eq!(path.file, "octocat_contributions.json");
            assert_eq!(pairs(&days), expected);
        }
        _ => panic!("the cache write was expected"),
    }
    let state = state.step(FetchEvent::Stored);
    let result = expect_finish(&state);
    assert!(result.ok());
    assert!(result.error().is_none());
    assert_eq!(pairs(result.data().unwrap()), expected);
}

#[test]
fn fresh_cache_is_served_without_a_request() {
    let state = fetch_contributions("octocat".to_string(), Some("secret".to_string()));
    let state = state.step(FetchEvent::Probed(CacheProbe::Found { age: Some(CacheAge { secs: 299, nanos: 0 }) }));
    match state.action() {
        FetchAction::LoadCache(path) => {
            assert_eq!(path.dir, "cache");
            assert_eq!(path.file, "octocat_contributions.json");
        }
        _ => panic!("the cache read was expected"),
    }
    let cached = vec![ContributionDay::new("2023-12-31".to_string(), 7).unwrap()];
    let state = state.step(FetchEvent::Loaded(Some(cached)));
    let result = expect_finish(&state);
    assert!(result.ok());
    assert_eq!(pairs(result.data().unwrap()), vec![("2023-12-31".to_string(), 7)]);
    assert!(result.error().is_none());
}

#[test]
fn cache_of_exactly_the_limit_is_still_fresh() {
    let state = fetch_contributions("octocat".to_string(), None);
    let state = state.step(FetchEvent::Probed(CacheProbe::Found { age: Some(CacheAge { secs: 300, nanos: 0 }) }));
    assert!(matches!(state.action(), FetchAction::LoadCache(_)));
}

#[test]
fn cache_a_moment_over_the_limit_is_refetched_and_never_returned() {
    let state = fetch_contributions("octocat".to_string(), None);
    let state = state.step(FetchEvent::Probed(CacheProbe::Found {
        age: Some(CacheAge { secs: 300, nanos: 500_000_000 }),
    }));
    assert!(matches!(state.action(), FetchAction::Send(_)));
    let cached = vec![ContributionDay::new("2023-12-31".to_string(), 7).unwrap()];
    let state = state.step(FetchEvent::Loaded(Some(cached)));
    assert!(matches!(state.action(), FetchAction::Send(_)));
    let state = state.step(FetchEvent::Unreachable("down".to_string()));
    let result = expect_finish(&state);
    assert!(!result.ok());
    assert!(result.data().is_none());
}

#[test]
fn cache_of_unknown_age_is_read() {
    let state = fetch_contributions("octocat".to_string(), None);
    let state = state.step(FetchEvent::Probed(CacheProbe::Found { age: None }));
    assert!(matches!(state.action(), FetchAction::LoadCache(_)));
}

#[test]
fn stale_cache_is_refetched_and_overwritten() {
    let state = fetch_contributions("octocat".to_string(), None);
    let state = state.step(FetchEvent::Probed(CacheProbe::Found { age: Some(CacheAge { secs: 301, nanos: 0 }) }));
    let request = expect_send(&state);
    assert_eq!(request.url, "https://api.github.com/graphql");
    let state = state.step(FetchEvent::Status { code: 200, text: "200 OK".to_string() });
    let state = state.step(FetchEvent::Body(Ok(TWO_WEEKS.as_bytes().to_vec())));
    match state.action() {
        FetchAction::StoreCache { path, days } => {
            assert_eq!(path.file, "octocat_contributions.json");
            assert_eq!(days.len(), 3);
        }
        _ => panic!("the cache write was expected"),
    }
}

#[test]
fn unexaminable_cache_goes_to_the_network() {
    let state = fetch_contributions("octocat".to_string(), None);
    let state = state.step(FetchEvent::Probed(CacheProbe::Unreadable));
    assert!(matches!(state.action(), FetchAction::Send(_)));
}

#[test]
fn malformed_cache_is_treated_as_absent() {
    let state = fetch_contributions("octocat".to_string(), Some("tok".to_string()));
    let state = state.step(FetchEvent::Probed(CacheProbe::Found { age: Some(CacheAge { secs: 5, nanos: 0 }) }));
    let state = state.step(FetchEvent::Loaded(None));
    let request = expect_send(&state);
    assert_eq!(request.headers.len(), 3);
    assert_eq!(request.headers[2].name, "Authorization");
    assert_eq!(request.headers[2].value, "Bearer tok");
}

#[test]
fn answer_without_weeks_fails_and_writes_no_cache() {
    let state = answered(r#"{"data":{"user":{"contributionsCollection":{"contributionCalendar":{}}}}}"#);
    let result = expect_finish(&state);
    assert!(!result.ok());
    assert!(result.data().is_none());
    assert_eq!(result.error().unwrap(), "Invalid response structure");
    let state = state.step(FetchEvent::Stored);
    assert!(matches!(state.action(), FetchAction::Finish(_)));
}

#[test]
fn answer_with_null_user_fails() {
    let state = answered(r#"{"data":{"user":null}}"#);
    let result = expect_finish(&state);
    assert_eq!(result.error().unwrap(), "Invalid response structure");
}

#[test]
fn graphql_errors_are_reported_with_their_text() {
    let state = answered(r#"{"errors":[{"message":"Could not resolve to a User"}],"data":null}"#);
    let result = expect_finish(&state);
    assert!(!result.ok());
    assert_eq!(
        result.error().unwrap(),
        "GraphQL error: [{\"message\":\"Could not resolve to a User\"}]"
    );
}

#[test]
fn transport_failure_is_reported() {
    let state = fetch_contributions("octocat".to_string(), None);
    let state = state.step(FetchEvent::Probed(CacheProbe::Missing));
    let state = state.step(FetchEvent::Unreachable("connection refused".to_string()));
    let result = expect_finish(&state);
    assert!(!result.ok());
    assert!(result.data().is_none());
    assert_eq!(result.error().unwrap(), "Network error: connection refused");
}

#[test]
fn status_outside_the_success_range_is_reported() {
    for (code, text) in [(199u16, "199 <unknown status code>"), (300, "300 Multiple Choices"), (401, "401 Unauthorized")] {
        let state = fetch_contributions("octocat".to_string(), None);
        let state = state.step(FetchEvent::Probed(CacheProbe::Missing));
        let state = state.step(FetchEvent::Status { code, text: text.to_string() });
        let result = expect_finish(&state);
        assert_eq!(result.error().unwrap(), &format!("GitHub API error: {}", text));
    }
}

#[test]
fn every_status_from_200_to_299_is_a_success() {
    for code in [200u16, 204, 299] {
        let state = fetch_contributions("octocat".to_string(), None);
        let state = state.step(FetchEvent::Probed(CacheProbe::Missing));
        let state = state.step(FetchEvent::Status { code, text: code.to_string() });
        assert!(matches!(state.action(), FetchAction::ReadBody));
    }
}

#[test]
fn body_that_cannot_be_read_is_reported() {
    let state = fetch_contributions("octocat".to_string(), None);
    let state = state.step(FetchEvent::Probed(CacheProbe::Missing));
    let state = state.step(FetchEvent::Status { code: 200, text: "200 OK".to_string() });
    let state = state.step(FetchEvent::Body(Err("connection reset".to_string())));
    let result = expect_finish(&state);
    assert_eq!(result.error().unwrap(), "JSON parse error: connection reset");
}

#[test]
fn body_that_is_not_json_is_reported_with_the_parser_message() {
    let body = "<html>rate limited</html>";
    let reason = serde_json::from_slice::<serde_json::Value>(body.as_bytes())
        .unwrap_err()
        .to_string();
    let state = answered(body);
    let result = expect_finish(&state);
    assert!(!result.ok());
    assert_eq!(result.error().unwrap(), &format!("JSON parse error: {}", reason));
    assert_eq!(result.error().unwrap(), "JSON parse error: expected value at line 1 column 1");
}

#[test]
fn event_that_answers_nothing_is_ignored() {
    let state = fetch_contributions("octocat".to_string(), None);
    let state = state.step(FetchEvent::Stored);
    assert!(matches!(state.action(), FetchAction::ProbeCache(_)));
    let state = state.step(FetchEvent::Loaded(None));
    assert!(matches!(state.action(), FetchAction::ProbeCache(_)));
    let state = state.step(FetchEvent::Probed(CacheProbe::Missing));
    let state = state.step(FetchEvent::Body(Ok(TWO_WEEKS.as_bytes().to_vec())));
    assert!(matches!(state.action(), FetchAction::Send(_)));
}

#[test]
fn a_finished_run_stays_finished() {
    let state = fetch_contributions("octocat".to_string(), None);
    let state = state.step(FetchEvent::Probed(CacheProbe::Missing));
    let state = state.step(FetchEvent::Unreachable("down".to_string()));
    let state = state.step(FetchEvent::Status { code: 200, text: "200 OK".to_string() });
    let result = expect_finish(&state);
    assert_eq!(result.error().unwrap(), "Network error: down");
}

#[test]
fn the_request_carries_the_query_and_the_login() {
    let state = fetch_contributions("octo\"cat".to_string(), None);
    let state = state.step(FetchEvent::Probed(CacheProbe::Missing));
    let request = expect_send(&state);
    let body: serde_json::Value = serde_json::from_str(&request.body).unwrap();
    assert_eq!(body.get("query").unwrap().as_str().unwrap(), QUERY);
    assert_eq!(
        body.get("variables").unwrap().get("login").unwrap().as_str().unwrap(),
        "octo\"cat"
    );
}
