use icy_counter::circle::Circle;
use icy_counter::state::{AppState, Effect, IpRecord, Message, startup_effect};

#[test]
fn initial_state_is_empty() {
    let s = AppState::new();
    assert_eq!(s.counter, 0);
    assert_eq!(s.ip_record, None);
    assert_eq!(s.last_error, None);
    assert_eq!(s.circle, Circle { x: 100, y: 100, radius: 50 });
}

#[test]
fn counter_scenario_one_two_one() {
    let mut s = AppState::new();
    assert_eq!(s.update(Message::CounterDelta(1)), None);
    assert_eq!(s.counter, 1);
    assert_eq!(s.update(Message::CounterDelta(1)), None);
    assert_eq!(s.counter, 2);
    assert_eq!(s.update(Message::CounterDelta(-1)), None);
    assert_eq!(s.counter, 1);
    assert_eq!(s.ip_record, None);
    assert_eq!(s.last_error, None);
}

#[test]
fn counter_is_sum_of_deltas() {
    let mut s = AppState::new();
    let deltas = [1, 1, 1, -1, 1, -1, -1, 1];
    for d in deltas {
        s.update(Message::CounterDelta(d));
    }
    assert_eq!(s.counter, deltas.iter().sum::<i32>());
}

#[test]
fn update_does_not_clamp_counter_at_zero() {
    // The transition itself has no floor: a decrement delivered at zero
    // drives the counter negative; only the view withholds that action.
    let mut s = AppState::new();
    s.update(Message::CounterDelta(-1));
    assert_eq!(s.counter, -1);
}

#[test]
fn fetch_success_sets_record_only() {
    let mut s = AppState::new();
    let eff = s.update(Message::FetchCompleted(Ok(IpRecord { origin: "1.2.3.4".to_string() })));
    assert_eq!(eff, None);
    assert_eq!(s.ip_record, Some(IpRecord { origin: "1.2.3.4".to_string() }));
    assert_eq!(s.last_error, None);
}

#[test]
fn fetch_failure_sets_error_only() {
    let mut s = AppState::new();
    s.update(Message::FetchCompleted(Err("connection refused".to_string())));
    assert_eq!(s.ip_record, None);
    assert_eq!(s.last_error, Some("connection refused".to_string()));
}

#[test]
fn success_then_failure_leaves_both_outcomes_set() {
    let mut s = AppState::new();
    s.update(Message::FetchCompleted(Ok(IpRecord { origin: "1.2.3.4".to_string() })));
    s.update(Message::FetchCompleted(Err("timed out".to_string())));
    assert_eq!(s.ip_record, Some(IpRecord { origin: "1.2.3.4".to_string() }));
    assert_eq!(s.last_error, Some("timed out".to_string()));
}

#[test]
fn update_never_touches_the_circle() {
    let mut s = AppState::new();
    s.update(Message::CounterDelta(1));
    s.update(Message::FetchCompleted(Err("x".to_string())));
    assert_eq!(s.circle, Circle { x: 100, y: 100, radius: 50 });
}

#[test]
fn startup_effect_is_the_fetch() {
    assert_eq!(startup_effect(), Effect::FetchIp);
}

#[test]
fn messages_clone_faithfully() {
    let m = Message::FetchCompleted(Ok(IpRecord { origin: "5.6.7.8".to_string() }));
    assert_eq!(m.clone(), m);
    let d = Message::CounterDelta(-1);
    assert_eq!(d.clone(), d);
}
