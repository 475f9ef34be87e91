use dad_joke::coordinator::{Coordinator, CoordinatorState, FetchOutcome, JokeRecord};

fn success(id: &str, text: &str) -> FetchOutcome {
    FetchOutcome::Success(JokeRecord::new(id.to_string(), text.to_string()))
}

#[test]
fn initial_state_is_idle_and_empty() {
    let c = Coordinator::new();
    let s = c.read_state();
    assert_eq!(
        s,
        CoordinatorState { loading: false, last_outcome: None }
    );
}

#[test]
fn refresh_flips_loading_immediately() {
    let mut c = Coordinator::new();
    c.request_refresh();
    let s = c.read_state();
    assert!(s.loading);
    assert_eq!(s.last_outcome, None);
}

#[test]
fn refresh_keeps_previous_outcome_visible() {
    let mut c = Coordinator::new();
    c.request_refresh();
    c.complete_fetch(success("a", "X"));
    c.request_refresh();
    let s = c.read_state();
    assert!(s.loading);
    assert_eq!(s.last_outcome, Some(success("a", "X")));
}

#[test]
fn completion_stores_exact_outcome_and_clears_loading() {
    let mut c = Coordinator::new();
    c.request_refresh();
    c.complete_fetch(success("abc123", "Why did the chicken..."));
    let s = c.read_state();
    assert_eq!(
        s,
        CoordinatorState {
            loading: false,
            last_outcome: Some(success("abc123", "Why did the chicken...")),
        }
    );
}

#[test]
fn two_fetches_leave_no_history() {
    let mut c = Coordinator::new();
    c.request_refresh();
    c.complete_fetch(success("a", "X"));
    c.request_refresh();
    c.complete_fetch(success("b", "Y"));
    let s = c.read_state();
    assert_eq!(s.loading, false);
    assert_eq!(s.last_outcome, Some(success("b", "Y")));
    match s.last_outcome {
        Some(FetchOutcome::Success(j)) => {
            assert!(!j.id.contains('a'));
            assert!(!j.text.contains('X'));
        }
        _ => panic!("expected a success outcome"),
    }
}

#[test]
fn failure_is_captured_as_stored_state() {
    let mut c = Coordinator::new();
    c.request_refresh();
    c.complete_fetch(FetchOutcome::Failure("timeout".to_string()));
    let s = c.read_state();
    assert_eq!(s.loading, false);
    assert_eq!(s.last_outcome, Some(FetchOutcome::Failure("timeout".to_string())));
}

#[test]
fn failure_replaces_success_and_back() {
    let mut c = Coordinator::new();
    c.request_refresh();
    c.complete_fetch(success("a", "X"));
    c.request_refresh();
    c.complete_fetch(FetchOutcome::Failure("boom".to_string()));
    assert_eq!(
        c.read_state().last_outcome,
        Some(FetchOutcome::Failure("boom".to_string()))
    );
    c.request_refresh();
    c.complete_fetch(success("b", "Y"));
    assert_eq!(c.read_state().last_outcome, Some(success("b", "Y")));
}

#[test]
fn reads_are_idempotent() {
    let mut c = Coordinator::new();
    c.request_refresh();
    c.complete_fetch(success("a", "X"));
    let s1 = c.read_state();
    let s2 = c.read_state();
    let s3 = c.read_state();
    assert_eq!(s1, s2);
    assert_eq!(s2, s3);
}

#[test]
fn joke_record_keeps_its_fields() {
    let j = JokeRecord::new("id9".to_string(), "some joke".to_string());
    assert_eq!(j.id, "id9");
    assert_eq!(j.text, "some joke");
}
