use std::sync::{Arc, Mutex};

use recording_session::error::ErrorKind;
use recording_session::registry::{Observation, SessionRegistry, Snapshot};
use recording_session::session::{Contribution, Finish, SessionState};
use tokio::sync::broadcast::error::TryRecvError;
use tokio::sync::broadcast::Receiver;

fn registry_with(code: &str, expected: usize) -> SessionRegistry {
    let mut registry = SessionRegistry::new();
    assert_eq!(registry.insert_session(code.to_string(), "take one".to_string(), expected), Ok(()));
    registry
}

fn live(registry: &SessionRegistry, code: &str) -> Receiver<String> {
    match registry.observe(code) {
        Ok(Observation::Live(subscription)) => subscription.into_receiver(),
        _ => panic!("the session is not active"),
    }
}

fn snapshot(registry: &SessionRegistry, code: &str) -> Option<Vec<Vec<u8>>> {
    match registry.get_session(code) {
        Ok(Snapshot::Ready(buffers)) => Some(buffers.clone()),
        Ok(Snapshot::NotReady) => None,
        Err(kind) => panic!("unexpected failure: {:?}", kind),
    }
}

#[test]
fn new_registry_holds_no_session() {
    let registry = SessionRegistry::new();
    assert!(!registry.contains("ABCD1234"));
    assert!(matches!(registry.get_session("ABCD1234"), Err(ErrorKind::SessionNotFound)));
}

#[test]
fn inserted_session_is_active_and_empty() {
    let mut registry = registry_with("ABCD1234", 1);
    assert!(registry.contains("ABCD1234"));
    assert!(matches!(registry.get_session("ABCD1234"), Ok(Snapshot::NotReady)));
    assert_eq!(registry.contribute("ABCD1234", b"only".to_vec()), Ok(Contribution::Completed));
    assert_eq!(snapshot(&registry, "ABCD1234"), Some(vec![b"only".to_vec()]));
}

#[test]
fn taken_code_is_refused_and_the_session_kept() {
    let mut registry = registry_with("ABCD1234", 2);
    assert_eq!(registry.contribute("ABCD1234", b"A".to_vec()), Ok(Contribution::Recorded));
    assert_eq!(
        registry.insert_session("ABCD1234".to_string(), "again".to_string(), 1),
        Err(ErrorKind::ResourceExhaustion)
    );
    assert_eq!(registry.contribute("ABCD1234", b"B".to_vec()), Ok(Contribution::Completed));
    assert_eq!(snapshot(&registry, "ABCD1234"), Some(vec![b"A".to_vec(), b"B".to_vec()]));
}

#[test]
fn sessions_do_not_share_contributions() {
    let mut registry = registry_with("AAAAAAAA", 1);
    assert_eq!(registry.insert_session("BBBBBBBB".to_string(), String::new(), 1), Ok(()));
    assert_eq!(registry.contribute("BBBBBBBB", vec![2]), Ok(Contribution::Completed));
    assert!(matches!(registry.get_session("AAAAAAAA"), Ok(Snapshot::NotReady)));
    assert_eq!(registry.contribute("AAAAAAAA", vec![1]), Ok(Contribution::Completed));
    assert_eq!(snapshot(&registry, "AAAAAAAA"), Some(vec![vec![1]]));
    assert_eq!(snapshot(&registry, "BBBBBBBB"), Some(vec![vec![2]]));
}

#[test]
fn active_session_reads_not_ready() {
    let mut registry = registry_with("ABCD1234", 3);
    assert!(matches!(registry.get_session("ABCD1234"), Ok(Snapshot::NotReady)));
    assert_eq!(registry.contribute("ABCD1234", vec![1, 2, 3]), Ok(Contribution::Recorded));
    assert!(matches!(registry.get_session("ABCD1234"), Ok(Snapshot::NotReady)));
    assert_eq!(registry.contribute("ABCD1234", vec![4]), Ok(Contribution::Recorded));
    assert!(matches!(registry.get_session("ABCD1234"), Ok(Snapshot::NotReady)));
}

#[test]
fn finished_session_reads_all_payloads_in_arrival_order() {
    let mut registry = registry_with("ABCD1234", 3);
    assert_eq!(registry.contribute("ABCD1234", vec![3, 3]), Ok(Contribution::Recorded));
    assert_eq!(registry.contribute("ABCD1234", vec![]), Ok(Contribution::Recorded));
    assert_eq!(registry.contribute("ABCD1234", vec![1]), Ok(Contribution::Completed));
    let expected = Some(vec![vec![3, 3], vec![], vec![1]]);
    assert_eq!(snapshot(&registry, "ABCD1234"), expected);
    assert_eq!(snapshot(&registry, "ABCD1234"), expected);
}

#[test]
fn contribution_to_unknown_code_creates_nothing() {
    let mut registry = registry_with("ABCD1234", 1);
    assert_eq!(registry.contribute("ZZZZ9999", vec![1]), Err(ErrorKind::SessionNotFound));
    assert!(!registry.contains("ZZZZ9999"));
    assert!(matches!(registry.get_session("ZZZZ9999"), Err(ErrorKind::SessionNotFound)));
    assert!(matches!(registry.observe("ZZZZ9999"), Err(ErrorKind::SessionNotFound)));
    assert!(matches!(registry.get_session("ABCD1234"), Ok(Snapshot::NotReady)));
}

#[test]
fn contribution_after_completion_is_discarded() {
    let mut registry = registry_with("ABCD1234", 1);
    let mut receiver = live(&registry, "ABCD1234");
    assert_eq!(registry.contribute("ABCD1234", vec![1]), Ok(Contribution::Completed));
    assert_eq!(registry.contribute("ABCD1234", vec![2]), Ok(Contribution::Discarded));
    assert_eq!(snapshot(&registry, "ABCD1234"), Some(vec![vec![1]]));
    assert_eq!(receiver.try_recv(), Ok("session_finished".to_string()));
    assert_eq!(receiver.try_recv(), Err(TryRecvError::Empty));
}

#[test]
fn session_expecting_nobody_finishes_only_on_request() {
    let mut registry = registry_with("ABCD1234", 0);
    assert!(matches!(registry.get_session("ABCD1234"), Ok(Snapshot::NotReady)));
    assert_eq!(registry.contribute("ABCD1234", vec![1]), Ok(Contribution::Recorded));
    assert_eq!(registry.contribute("ABCD1234", vec![2]), Ok(Contribution::Recorded));
    assert_eq!(registry.finish("ABCD1234"), Ok(Finish::Notified));
    assert_eq!(snapshot(&registry, "ABCD1234"), Some(vec![vec![1], vec![2]]));
}

#[test]
fn two_contributors_scenario() {
    let mut registry = registry_with("ABCD1234", 2);
    let mut receiver = live(&registry, "ABCD1234");
    assert_eq!(registry.contribute("ABCD1234", b"A".to_vec()), Ok(Contribution::Recorded));
    assert!(matches!(registry.get_session("ABCD1234"), Ok(Snapshot::NotReady)));
    assert_eq!(receiver.try_recv(), Err(TryRecvError::Empty));
    assert_eq!(registry.contribute("ABCD1234", b"B".to_vec()), Ok(Contribution::Completed));
    assert_eq!(snapshot(&registry, "ABCD1234"), Some(vec![b"A".to_vec(), b"B".to_vec()]));
    assert_eq!(receiver.try_recv(), Ok("session_finished".to_string()));
    assert_eq!(receiver.try_recv(), Err(TryRecvError::Empty));
}

#[test]
fn simultaneous_last_contributions_publish_one_finished_event() {
    let mut registry = registry_with("ABCD1234", 3);
    let mut receiver = live(&registry, "ABCD1234");
    assert_eq!(registry.contribute("ABCD1234", b"first".to_vec()), Ok(Contribution::Recorded));
    let shared = Arc::new(Mutex::new(registry));
    let runtime = tokio::runtime::Builder::new_multi_thread().worker_threads(2).build().unwrap();
    let left = shared.clone();
    let right = shared.clone();
    let second = runtime
        .spawn_blocking(move || left.lock().unwrap().contribute("ABCD1234", b"second".to_vec()));
    let third = runtime
        .spawn_blocking(move || right.lock().unwrap().contribute("ABCD1234", b"third".to_vec()));
    let second = runtime.block_on(second).unwrap();
    let third = runtime.block_on(third).unwrap();
    let answers = [second, third];
    let completed = answers.iter().filter(|a| **a == Ok(Contribution::Completed)).count();
    let recorded = answers.iter().filter(|a| **a == Ok(Contribution::Recorded)).count();
    assert_eq!(completed, 1);
    assert_eq!(recorded, 1);
    assert_eq!(receiver.try_recv(), Ok("session_finished".to_string()));
    assert_eq!(receiver.try_recv(), Err(TryRecvError::Empty));
    let registry = shared.lock().unwrap();
    let buffers = snapshot(&registry, "ABCD1234").unwrap();
    assert_eq!(buffers.len(), 3);
    assert_eq!(buffers[0], b"first".to_vec());
    assert!(buffers.contains(&b"second".to_vec()));
    assert!(buffers.contains(&b"third".to_vec()));
}

#[test]
fn last_contributions_in_either_order_complete_once() {
    for order in [[b"second", b"third_"], [b"third_", b"second"]] {
        let mut registry = registry_with("ABCD1234", 3);
        let mut receiver = live(&registry, "ABCD1234");
        assert_eq!(registry.contribute("ABCD1234", b"first".to_vec()), Ok(Contribution::Recorded));
        assert_eq!(registry.contribute("ABCD1234", order[0].to_vec()), Ok(Contribution::Recorded));
        assert_eq!(registry.contribute("ABCD1234", order[1].to_vec()), Ok(Contribution::Completed));
        assert_eq!(receiver.try_recv(), Ok("session_finished".to_string()));
        assert_eq!(receiver.try_recv(), Err(TryRecvError::Empty));
        assert_eq!(
            snapshot(&registry, "ABCD1234"),
            Some(vec![b"first".to_vec(), order[0].to_vec(), order[1].to_vec()])
        );
    }
}

#[test]
fn finishing_twice_notifies_once() {
    let mut registry = registry_with("ABCD1234", 5);
    let mut receiver = live(&registry, "ABCD1234");
    assert_eq!(registry.contribute("ABCD1234", vec![9]), Ok(Contribution::Recorded));
    assert_eq!(registry.finish("ABCD1234"), Ok(Finish::Notified));
    assert_eq!(registry.finish("ABCD1234"), Ok(Finish::AlreadyFinished));
    assert_eq!(receiver.try_recv(), Ok("session_finished".to_string()));
    assert_eq!(receiver.try_recv(), Err(TryRecvError::Empty));
    assert_eq!(snapshot(&registry, "ABCD1234"), Some(vec![vec![9]]));
}

#[test]
fn finishing_an_unknown_code_fails() {
    let mut registry = registry_with("ABCD1234", 1);
    assert_eq!(registry.finish("ZZZZ9999"), Err(ErrorKind::SessionNotFound));
    assert!(!registry.contains("ZZZZ9999"));
    assert!(matches!(registry.get_session("ABCD1234"), Ok(Snapshot::NotReady)));
}

#[test]
fn finishing_after_completion_does_nothing() {
    let mut registry = registry_with("ABCD1234", 1);
    let mut receiver = live(&registry, "ABCD1234");
    assert_eq!(registry.contribute("ABCD1234", vec![1]), Ok(Contribution::Completed));
    assert_eq!(registry.finish("ABCD1234"), Ok(Finish::AlreadyFinished));
    assert_eq!(receiver.try_recv(), Ok("session_finished".to_string()));
    assert_eq!(receiver.try_recv(), Err(TryRecvError::Empty));
}

#[test]
fn every_subscriber_gets_its_own_copy() {
    let mut registry = registry_with("ABCD1234", 1);
    let mut first = live(&registry, "ABCD1234");
    let mut second = live(&registry, "ABCD1234");
    assert_eq!(registry.finish("ABCD1234"), Ok(Finish::Notified));
    assert_eq!(first.try_recv(), Ok("session_finished".to_string()));
    assert_eq!(second.try_recv(), Ok("session_finished".to_string()));
    assert_eq!(first.try_recv(), Err(TryRecvError::Empty));
    assert_eq!(second.try_recv(), Err(TryRecvError::Empty));
}

#[test]
fn disconnected_subscriber_does_not_hold_up_the_others() {
    let mut registry = registry_with("ABCD1234", 2);
    let gone = live(&registry, "ABCD1234");
    let mut stays = live(&registry, "ABCD1234");
    assert_eq!(registry.contribute("ABCD1234", vec![1]), Ok(Contribution::Recorded));
    drop(gone);
    assert_eq!(registry.contribute("ABCD1234", vec![2]), Ok(Contribution::Completed));
    assert_eq!(stays.try_recv(), Ok("session_finished".to_string()));
    assert_eq!(stays.try_recv(), Err(TryRecvError::Empty));
}

#[test]
fn publishing_without_subscribers_succeeds() {
    let mut registry = registry_with("ABCD1234", 1);
    assert_eq!(registry.finish("ABCD1234"), Ok(Finish::Notified));
    assert_eq!(snapshot(&registry, "ABCD1234"), Some(vec![]));
}

#[test]
fn observing_a_finished_session_replays_the_fact() {
    let mut registry = registry_with("ABCD1234", 1);
    assert_eq!(registry.finish("ABCD1234"), Ok(Finish::Notified));
    assert!(matches!(registry.observe("ABCD1234"), Ok(Observation::Finished)));
}

#[test]
fn events_of_one_session_do_not_reach_another() {
    let mut registry = registry_with("AAAAAAAA", 1);
    assert_eq!(registry.insert_session("BBBBBBBB".to_string(), String::new(), 1), Ok(()));
    let mut first = live(&registry, "AAAAAAAA");
    let mut second = live(&registry, "BBBBBBBB");
    assert_eq!(registry.finish("BBBBBBBB"), Ok(Finish::Notified));
    assert_eq!(first.try_recv(), Err(TryRecvError::Empty));
    assert_eq!(second.try_recv(), Ok("session_finished".to_string()));
}

#[test]
fn active_session_is_not_evicted() {
    let mut registry = registry_with("ABCD1234", 2);
    assert_eq!(registry.remove_session("ABCD1234"), Ok(false));
    assert!(registry.contains("ABCD1234"));
    assert_eq!(registry.contribute("ABCD1234", vec![1]), Ok(Contribution::Recorded));
}

#[test]
fn finished_session_is_evicted_on_request() {
    let mut registry = registry_with("AAAAAAAA", 1);
    assert_eq!(registry.insert_session("BBBBBBBB".to_string(), String::new(), 1), Ok(()));
    assert_eq!(registry.insert_session("CCCCCCCC".to_string(), String::new(), 1), Ok(()));
    let mut receiver = live(&registry, "BBBBBBBB");
    assert_eq!(registry.contribute("BBBBBBBB", vec![2]), Ok(Contribution::Completed));
    assert_eq!(registry.remove_session("BBBBBBBB"), Ok(true));
    assert!(!registry.contains("BBBBBBBB"));
    assert!(registry.contains("AAAAAAAA"));
    assert!(registry.contains("CCCCCCCC"));
    assert_eq!(registry.contribute("BBBBBBBB", vec![3]), Err(ErrorKind::SessionNotFound));
    assert_eq!(registry.remove_session("BBBBBBBB"), Err(ErrorKind::SessionNotFound));
    assert_eq!(receiver.try_recv(), Ok("session_finished".to_string()));
    assert_eq!(receiver.try_recv(), Err(TryRecvError::Closed));
    assert_eq!(registry.contribute("CCCCCCCC", vec![4]), Ok(Contribution::Completed));
    assert_eq!(snapshot(&registry, "CCCCCCCC"), Some(vec![vec![4]]));
    assert_eq!(registry.insert_session("BBBBBBBB".to_string(), String::new(), 1), Ok(()));
    assert!(matches!(registry.get_session("BBBBBBBB"), Ok(Snapshot::NotReady)));
}

#[test]
fn creation_parameters_are_kept() {
    let mut registry = registry_with("ABCD1234", 2);
    assert_eq!(registry.metadata("ABCD1234"), Ok("take one"));
    assert_eq!(registry.expected_contributors("ABCD1234"), Ok(2));
    assert_eq!(registry.state("ABCD1234"), Ok(SessionState::Active));
    assert_eq!(registry.contribute("ABCD1234", vec![1]), Ok(Contribution::Recorded));
    assert_eq!(registry.state("ABCD1234"), Ok(SessionState::Active));
    assert_eq!(registry.contribute("ABCD1234", vec![2]), Ok(Contribution::Completed));
    assert_eq!(registry.state("ABCD1234"), Ok(SessionState::Finished));
    assert_eq!(registry.finish("ABCD1234"), Ok(Finish::AlreadyFinished));
    assert_eq!(registry.state("ABCD1234"), Ok(SessionState::Finished));
    assert_eq!(registry.metadata("ABCD1234"), Ok("take one"));
    assert_eq!(registry.expected_contributors("ABCD1234"), Ok(2));
}

#[test]
fn unknown_code_has_no_parameters() {
    let registry = registry_with("ABCD1234", 2);
    assert_eq!(registry.metadata("ZZZZ9999"), Err(ErrorKind::SessionNotFound));
    assert_eq!(registry.expected_contributors("ZZZZ9999"), Err(ErrorKind::SessionNotFound));
    assert_eq!(registry.state("ZZZZ9999"), Err(ErrorKind::SessionNotFound));
}

#[test]
fn created_session_is_registered_under_a_fresh_code() {
    let mut registry = SessionRegistry::new();
    let mut codes: Vec<String> = Vec::new();
    for round in 0..20 {
        let code = registry.create_session(format!("round {}", round), round).unwrap();
        assert_eq!(code.len(), 8);
        assert!(code.bytes().all(|b| b.is_ascii_digit() || b.is_ascii_uppercase()));
        assert!(!codes.contains(&code));
        assert_eq!(registry.state(&code), Ok(SessionState::Active));
        assert_eq!(registry.metadata(&code), Ok(format!("round {}", round).as_str()));
        assert_eq!(registry.expected_contributors(&code), Ok(round));
        assert!(matches!(registry.get_session(&code), Ok(Snapshot::NotReady)));
        codes.push(code);
    }
    for code in &codes {
        assert!(registry.contains(code));
    }
}
