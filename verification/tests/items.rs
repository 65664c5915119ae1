use vara_orthanc::host::{HostService, LogEntry, LogLevel};
use vara_orthanc::items::{private_creator, HostCall, ItemAction, ItemEvent, ItemLoop, ItemStep};

fn texts(items: &[&str]) -> Vec<String> {
    items.iter().map(|s| s.to_string()).collect()
}

fn told(candidates: ItemLoop, event: ItemEvent) -> (ItemLoop, ItemStep) {
    let (candidates, step) = candidates.step(event);
    (candidates, step.expect("the loop waits for this event"))
}

fn build(text: &str) -> ItemAction {
    ItemAction::Call(HostCall::CreateNativeObject(text.to_string()))
}

/// Runs the loop over `items`, answering the host's part from `outcomes`
/// (built?, matches?), and returns the calls in order.
fn calls_of(items: &[&str], outcomes: &[(bool, bool)]) -> Vec<HostCall> {
    let (mut candidates, mut step) = ItemLoop::start(texts(items));
    let mut calls = Vec::new();
    let mut index = 0;
    loop {
        let call = match step.action {
            ItemAction::Call(call) => call,
            ItemAction::Done => break,
        };
        let event = match &call {
            HostCall::CreateNativeObject(_) => ItemEvent::Created(outcomes[index].0),
            HostCall::MatchQuery => ItemEvent::Matched(outcomes[index].1),
            HostCall::AddAnswer => ItemEvent::Added,
            HostCall::FreeBuffer => {
                index += 1;
                ItemEvent::Released
            },
        };
        calls.push(call);
        let next = told(candidates, event);
        candidates = next.0;
        step = next.1;
    }
    assert!(candidates.is_done());
    assert!(!candidates.holds_buffer());
    calls
}

#[test]
fn empty_loop_is_done_at_once() {
    let (candidates, step) = ItemLoop::start(Vec::new());
    assert!(candidates.is_done());
    assert!(step.log.is_empty());
    assert_eq!(step.action, ItemAction::Done);
    let (candidates, step) = candidates.step(ItemEvent::Released);
    assert!(step.is_none());
    assert!(candidates.is_done());
}

#[test]
fn matching_item_is_built_matched_added_and_released() {
    assert_eq!(
        calls_of(&["a"], &[(true, true)]),
        vec![
            HostCall::CreateNativeObject("a".to_string()),
            HostCall::MatchQuery,
            HostCall::AddAnswer,
            HostCall::FreeBuffer,
        ]
    );
}

#[test]
fn item_that_does_not_match_is_released_without_an_answer() {
    assert_eq!(
        calls_of(&["a"], &[(true, false)]),
        vec![HostCall::CreateNativeObject("a".to_string()), HostCall::MatchQuery, HostCall::FreeBuffer]
    );
}

#[test]
fn item_that_cannot_be_built_is_released_and_skipped() {
    assert_eq!(
        calls_of(&["a", "b"], &[(false, true), (true, true)]),
        vec![
            HostCall::CreateNativeObject("a".to_string()),
            HostCall::FreeBuffer,
            HostCall::CreateNativeObject("b".to_string()),
            HostCall::MatchQuery,
            HostCall::AddAnswer,
            HostCall::FreeBuffer,
        ]
    );
}

#[test]
fn every_item_is_built_once_in_order_and_released_once() {
    let items = ["i0", "i1", "i2", "i3", "i4", "i5"];
    let outcomes = [(true, true), (true, false), (false, false), (false, true), (true, true), (true, false)];
    let calls = calls_of(&items, &outcomes);
    let built: Vec<String> = calls
        .iter()
        .filter_map(|call| match call {
            HostCall::CreateNativeObject(text) => Some(text.clone()),
            _ => None,
        })
        .collect();
    assert_eq!(built, texts(&items));
    assert_eq!(calls.iter().filter(|call| **call == HostCall::FreeBuffer).count(), 6);
    assert_eq!(calls.iter().filter(|call| **call == HostCall::AddAnswer).count(), 2);
    let mut held = false;
    for call in &calls {
        match call {
            HostCall::CreateNativeObject(_) => {
                assert!(!held);
                held = true;
            },
            HostCall::FreeBuffer => {
                assert!(held);
                held = false;
            },
            _ => assert!(held),
        }
    }
    assert!(!held);
}

#[test]
fn conversion_failure_is_logged() {
    let (candidates, first) = ItemLoop::start(texts(&["a"]));
    assert!(first.log.is_empty());
    assert_eq!(first.action, build("a"));
    assert!(candidates.holds_buffer());
    let (candidates, step) = told(candidates, ItemEvent::Created(false));
    assert_eq!(
        step.log,
        vec![LogEntry {
            level: LogLevel::Error,
            message: "Failed to convert a worklist item; it is skipped".to_string(),
        }]
    );
    assert_eq!(step.action, ItemAction::Call(HostCall::FreeBuffer));
    assert!(!candidates.holds_buffer());
    assert!(!candidates.is_done());
}

#[test]
fn loop_ignores_what_it_does_not_wait_for() {
    let (candidates, _) = ItemLoop::start(texts(&["a"]));
    let (candidates, step) = candidates.step(ItemEvent::Matched(true));
    assert!(step.is_none());
    let (candidates, step) = candidates.step(ItemEvent::Added);
    assert!(step.is_none());
    let (candidates, step) = candidates.step(ItemEvent::Released);
    assert!(step.is_none());
    assert!(candidates.holds_buffer());
    let (candidates, _) = told(candidates, ItemEvent::Created(true));
    let (candidates, step) = candidates.step(ItemEvent::Created(true));
    assert!(step.is_none());
    let (candidates, _) = told(candidates, ItemEvent::Matched(true));
    let (candidates, step) = candidates.step(ItemEvent::Released);
    assert!(step.is_none());
    let (candidates, _) = told(candidates, ItemEvent::Added);
    let (candidates, step) = candidates.step(ItemEvent::Added);
    assert!(step.is_none());
    let (candidates, step) = told(candidates, ItemEvent::Released);
    assert_eq!(step.action, ItemAction::Done);
    assert!(candidates.is_done());
}

#[test]
fn calls_name_their_host_service() {
    assert_eq!(HostCall::CreateNativeObject("{}".to_string()).service(), Some(HostService::CreateDicom2));
    assert_eq!(HostCall::MatchQuery.service(), Some(HostService::WorklistIsMatch));
    assert_eq!(HostCall::AddAnswer.service(), Some(HostService::WorklistAddAnswer));
    assert_eq!(HostCall::FreeBuffer.service(), None);
}

#[test]
fn host_results_become_events() {
    assert_eq!(ItemEvent::created(0), ItemEvent::Created(true));
    assert_eq!(ItemEvent::created(1), ItemEvent::Created(false));
    assert_eq!(ItemEvent::created(-1), ItemEvent::Created(false));
    assert_eq!(ItemEvent::matched(0), ItemEvent::Matched(false));
    assert_eq!(ItemEvent::matched(1), ItemEvent::Matched(true));
    assert_eq!(ItemEvent::matched(-7), ItemEvent::Matched(true));
}

#[test]
fn private_creator_is_vara() {
    assert_eq!(private_creator(), "vara");
}
