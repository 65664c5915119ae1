use vara_orthanc::host::{LogEntry, LogLevel};
use vara_orthanc::http::{HttpBody, HttpMethod, HttpReply, HttpRequest};
use vara_orthanc::items::{HostCall, ItemEvent};
use vara_orthanc::worklist::{
    orthanc_modality_endpoints, orthanc_modality_worklist, worklist_items, Responder,
    WorklistAction, WorklistEvent, WorklistSettings, WorklistStep,
};

const QUERY: &str = "{\"Short\": true, \"Query\": {\"AccessionNumber\": \"*\", \"RequestedProcedureID\": null, \"ScheduledProcedureStepSequence\": [], \"PatientName\": null, \"StudyID\": null, \"StudyInstanceUID\": null}}";

const DEFAULT_ENDPOINT: &str = "http://localhost:9042/modalities/orthanc/find-worklist";

fn unset() -> WorklistSettings {
    WorklistSettings { endpoint: None, user: None, password: None }
}

fn configured() -> WorklistSettings {
    WorklistSettings {
        endpoint: Some("http://mwl/find".to_string()),
        user: Some("alice".to_string()),
        password: Some("wonder".to_string()),
    }
}

fn query_request(url: &str, username: &str, password: &str) -> HttpRequest {
    HttpRequest {
        method: HttpMethod::Post,
        url: url.to_string(),
        username: username.to_string(),
        password: password.to_string(),
        body: HttpBody::Text(QUERY.to_string()),
    }
}

fn answered_ok(body: &str) -> WorklistEvent {
    WorklistEvent::Replied(HttpReply::Answered { status: 200, body: body.to_string() })
}

fn create(text: &str) -> WorklistAction {
    WorklistAction::Call(HostCall::CreateNativeObject(text.to_string()))
}

fn call(call: HostCall) -> WorklistAction {
    WorklistAction::Call(call)
}

fn host(event: ItemEvent) -> WorklistEvent {
    WorklistEvent::Host(event)
}

fn entry(level: LogLevel, message: &str) -> LogEntry {
    LogEntry { level, message: message.to_string() }
}

fn advance(responder: Responder, event: WorklistEvent) -> (Responder, WorklistStep) {
    let (responder, step) = responder.step(event);
    (responder, step.expect("the responder waits for this event"))
}

/// Feeds `body` as the fetched response and returns the responder with the
/// first action after the cache is written.
fn fetched(body: &str) -> (Responder, WorklistStep) {
    let (responder, _) = Responder::start(configured());
    let (responder, step) = advance(responder, answered_ok(body));
    assert_eq!(step.action, WorklistAction::WriteCache(body.to_string()));
    advance(responder, WorklistEvent::CacheWritten(true))
}

#[test]
fn query_body_is_json() {
    let value: serde_json::Value = serde_json::from_str(QUERY).unwrap();
    assert_eq!(value["Short"], serde_json::Value::Bool(true));
    assert_eq!(value["Query"]["AccessionNumber"], serde_json::Value::String("*".to_string()));
    assert!(value["Query"]["PatientName"].is_null());
}

#[test]
fn endpoints_default_to_the_local_source_with_a_warning() {
    let resolved = orthanc_modality_endpoints(&None);
    assert_eq!(resolved.endpoints, vec![DEFAULT_ENDPOINT.to_string()]);
    assert_eq!(resolved.log, vec![entry(LogLevel::Warning, "VARA_ORTHANC_MODALITY_ENDPOINT not defined")]);
}

#[test]
fn endpoints_take_the_configured_source() {
    let resolved = orthanc_modality_endpoints(&Some("http://mwl/find".to_string()));
    assert_eq!(resolved.endpoints, vec!["http://mwl/find".to_string()]);
    assert!(resolved.log.is_empty());
}

#[test]
fn worklist_request_posts_the_short_query() {
    assert_eq!(orthanc_modality_worklist("http://mwl", "u", "p"), query_request("http://mwl", "u", "p"));
}

#[test]
fn worklist_items_prints_each_element_in_order() {
    assert_eq!(
        worklist_items("[{\"A\":1},{\"B\":2}]"),
        Some(vec!["{\"A\":1}".to_string(), "{\"B\":2}".to_string()])
    );
}

#[test]
fn worklist_items_prints_compactly_with_sorted_keys() {
    assert_eq!(
        worklist_items(" [ { \"b\" : [1, 2.5, -3] , \"a\" : \"x\\ny\" } , null , \"s\" , true ] "),
        Some(vec![
            "{\"a\":\"x\\ny\",\"b\":[1,2.5,-3]}".to_string(),
            "null".to_string(),
            "\"s\"".to_string(),
            "true".to_string(),
        ])
    );
    assert_eq!(worklist_items("[]"), Some(Vec::new()));
}

#[test]
fn worklist_items_turns_down_what_is_no_array() {
    assert_eq!(worklist_items("{\"A\":1}"), None);
    assert_eq!(worklist_items("\"text\""), None);
    assert_eq!(worklist_items("[1, 2"), None);
    assert_eq!(worklist_items(""), None);
}

#[test]
fn start_with_nothing_set_asks_the_default_source_as_admin() {
    let (responder, first) = Responder::start(unset());
    assert_eq!(first.log, vec![entry(LogLevel::Warning, "VARA_ORTHANC_MODALITY_ENDPOINT not defined")]);
    assert_eq!(first.action, WorklistAction::Send(query_request(DEFAULT_ENDPOINT, "admin", "password")));
    assert!(!responder.is_finished());
    assert!(!responder.holds_buffer());
}

#[test]
fn start_with_settings_asks_the_configured_source() {
    let (_, first) = Responder::start(configured());
    assert!(first.log.is_empty());
    assert_eq!(first.action, WorklistAction::Send(query_request("http://mwl/find", "alice", "wonder")));
}

#[test]
fn convert_creates_one_object_per_element_in_order() {
    let (responder, step) = fetched("[{\"A\":1},{\"B\":2}]");
    assert_eq!(step.action, create("{\"A\":1}"));
    let (responder, step) = advance(responder, host(ItemEvent::Created(true)));
    assert_eq!(step.action, call(HostCall::MatchQuery));
    let (responder, step) = advance(responder, host(ItemEvent::Matched(true)));
    assert_eq!(step.action, call(HostCall::AddAnswer));
    let (responder, step) = advance(responder, host(ItemEvent::Added));
    assert_eq!(step.action, call(HostCall::FreeBuffer));
    let (responder, step) = advance(responder, host(ItemEvent::Released));
    assert_eq!(step.action, create("{\"B\":2}"));
    let (responder, step) = advance(responder, host(ItemEvent::Created(true)));
    assert_eq!(step.action, call(HostCall::MatchQuery));
    let (responder, step) = advance(responder, host(ItemEvent::Matched(false)));
    assert_eq!(step.action, call(HostCall::FreeBuffer));
    let (responder, step) = advance(responder, host(ItemEvent::Released));
    assert_eq!(step.action, WorklistAction::Finish(0));
    assert!(responder.is_finished());
}

#[test]
fn every_outcome_releases_the_buffer_once() {
    let outcomes: [(bool, bool); 3] = [(true, true), (true, false), (false, false)];
    for (created, matched) in outcomes {
        let (mut responder, mut step) = fetched("[{\"A\":1}]");
        let mut creates = 0;
        let mut frees = 0;
        let mut answers = 0;
        loop {
            let event = match &step.action {
                WorklistAction::Call(HostCall::CreateNativeObject(_)) => {
                    creates += 1;
                    assert!(responder.holds_buffer());
                    ItemEvent::Created(created)
                },
                WorklistAction::Call(HostCall::MatchQuery) => {
                    assert!(responder.holds_buffer());
                    ItemEvent::Matched(matched)
                },
                WorklistAction::Call(HostCall::AddAnswer) => {
                    answers += 1;
                    assert!(responder.holds_buffer());
                    ItemEvent::Added
                },
                WorklistAction::Call(HostCall::FreeBuffer) => {
                    frees += 1;
                    assert!(!responder.holds_buffer());
                    ItemEvent::Released
                },
                WorklistAction::Finish(status) => {
                    assert_eq!(*status, 0);
                    break;
                },
                other => panic!("unexpected action {:?}", other),
            };
            let next = advance(responder, WorklistEvent::Host(event));
            responder = next.0;
            step = next.1;
        }
        assert_eq!(creates, 1);
        assert_eq!(frees, 1);
        assert_eq!(answers, if created && matched { 1 } else { 0 });
    }
}

#[test]
fn conversion_failure_skips_the_item_and_goes_on() {
    let (responder, _) = fetched("[1, 2]");
    let (responder, step) = advance(responder, host(ItemEvent::Created(false)));
    assert_eq!(step.log, vec![entry(LogLevel::Error, "Failed to convert a worklist item; it is skipped")]);
    assert_eq!(step.action, call(HostCall::FreeBuffer));
    let (_, step) = advance(responder, host(ItemEvent::Released));
    assert_eq!(step.action, create("2"));
}

#[test]
fn failed_fetch_falls_back_to_the_cache() {
    let (responder, _) = Responder::start(configured());
    let (responder, step) =
        advance(responder, WorklistEvent::Replied(HttpReply::Failed { reason: "refused".to_string() }));
    assert_eq!(
        step.log,
        vec![entry(LogLevel::Info, "Reading the cache file for MWL entries. Failure: no response")]
    );
    assert_eq!(step.action, WorklistAction::ReadCache);
    let (responder, step) = advance(responder, WorklistEvent::CacheRead(Some("[{\"X\":\"1\"}]".to_string())));
    assert_eq!(step.action, create("{\"X\":\"1\"}"));
    let (responder, _) = advance(responder, host(ItemEvent::Created(true)));
    let (responder, _) = advance(responder, host(ItemEvent::Matched(true)));
    let (responder, _) = advance(responder, host(ItemEvent::Added));
    let (_, step) = advance(responder, host(ItemEvent::Released));
    assert_eq!(step.action, WorklistAction::Finish(0));
}

#[test]
fn status_outside_success_falls_back_to_the_cache() {
    let (responder, _) = Responder::start(configured());
    let (_, step) = advance(
        responder,
        WorklistEvent::Replied(HttpReply::Answered { status: 503, body: "[{\"A\":1}]".to_string() }),
    );
    assert_eq!(
        step.log,
        vec![entry(LogLevel::Info, "Reading the cache file for MWL entries. Failure: status 503")]
    );
    assert_eq!(step.action, WorklistAction::ReadCache);
}

#[test]
fn failed_fetch_without_cache_fails_the_query() {
    let (responder, _) = Responder::start(configured());
    let (responder, _) =
        advance(responder, WorklistEvent::Replied(HttpReply::Failed { reason: String::new() }));
    let (responder, step) = advance(responder, WorklistEvent::CacheRead(None));
    assert_eq!(
        step.log,
        vec![
            entry(LogLevel::Warning, "Failed to read cache file"),
            entry(LogLevel::Error, "Failed to fetch modality worklist from peer Orthanc"),
        ]
    );
    assert_eq!(step.action, WorklistAction::Finish(1));
    assert!(responder.is_finished());
}

#[test]
fn cache_that_cannot_be_written_fails_the_query() {
    let (responder, _) = Responder::start(configured());
    let (responder, _) = advance(responder, answered_ok("[{\"A\":1}]"));
    let (_, step) = advance(responder, WorklistEvent::CacheWritten(false));
    assert_eq!(step.log, vec![entry(LogLevel::Error, "Failed to fetch modality worklist from peer Orthanc")]);
    assert_eq!(step.action, WorklistAction::Finish(1));
}

#[test]
fn response_that_is_no_array_fails_the_query() {
    let (responder, step) = fetched("{\"A\":1}");
    assert_eq!(step.log, vec![entry(LogLevel::Error, "Failed to fetch modality worklist from peer Orthanc")]);
    assert_eq!(step.action, WorklistAction::Finish(1));
    assert!(responder.is_finished());
}

#[test]
fn empty_worklist_finishes_with_success() {
    let (responder, step) = fetched("[]");
    assert!(step.log.is_empty());
    assert_eq!(step.action, WorklistAction::Finish(0));
    assert!(responder.is_finished());
}

#[test]
fn responder_ignores_what_it_does_not_wait_for() {
    let (responder, _) = Responder::start(configured());
    let (responder, step) = responder.step(host(ItemEvent::Released));
    assert!(step.is_none());
    let (responder, step) = responder.step(host(ItemEvent::Created(true)));
    assert!(step.is_none());
    let (responder, step) = responder.step(WorklistEvent::CacheRead(None));
    assert!(step.is_none());
    let (responder, step) = responder.step(answered_ok("[7]"));
    assert!(step.is_some());
    let (responder, step) = responder.step(WorklistEvent::CacheWritten(true));
    assert_eq!(step.unwrap().action, create("7"));
    let (responder, step) = responder.step(host(ItemEvent::Released));
    assert!(step.is_none());
    assert!(responder.holds_buffer());
    let (responder, step) = responder.step(host(ItemEvent::Added));
    assert!(step.is_none());
    let (responder, _) = advance(responder, host(ItemEvent::Created(false)));
    let (responder, _) = advance(responder, host(ItemEvent::Released));
    assert!(responder.is_finished());
    let (_, step) = responder.step(host(ItemEvent::Released));
    assert!(step.is_none());
}

#[test]
fn query_is_answered_past_the_last_source() {
    let (responder, step) = fetched("[1]");
    assert_eq!(step.action, create("1"));
    let (responder, _) = advance(responder, host(ItemEvent::Created(true)));
    let (responder, _) = advance(responder, host(ItemEvent::Matched(false)));
    let (responder, step) = advance(responder, host(ItemEvent::Released));
    assert_eq!(step.action, WorklistAction::Finish(0));
    assert!(responder.is_finished());
    assert!(!responder.holds_buffer());
}
