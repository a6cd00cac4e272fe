use pairlane::answerer::ReceiverState;

#[test]
fn new_session_waits_for_an_offer() {
    let state: ReceiverState<u32> = ReceiverState::new();
    assert_eq!(*state.peer_id(), None);
    assert_eq!(state.active_sid(), None);
    assert!(!state.remote_desc_set());
    assert_eq!(state.pending_len(), 0);
}

#[test]
fn offer_sets_peer_and_round() {
    let mut state: ReceiverState<u32> = ReceiverState::new();
    assert_eq!(state.handle_offer("alice".to_string(), 4), Vec::<u32>::new());
    assert_eq!(*state.peer_id(), Some("alice".to_string()));
    assert_eq!(state.active_sid(), Some(4));
    assert!(state.remote_desc_set());
}

#[test]
fn candidates_before_the_offer_are_applied_once_in_arrival_order() {
    let mut state: ReceiverState<&str> = ReceiverState::new();
    assert_eq!(state.handle_receiver_candidate(1, "first"), None);
    assert_eq!(state.handle_receiver_candidate(1, "second"), None);
    assert_eq!(state.handle_receiver_candidate(1, "third"), None);
    assert_eq!(state.pending_len(), 3);
    assert_eq!(state.handle_offer("alice".to_string(), 1), vec!["first", "second", "third"]);
    assert_eq!(state.pending_len(), 0);
    assert_eq!(state.flush_receiver_candidates(), Vec::<&str>::new());
}

#[test]
fn candidate_of_the_active_round_is_applied_at_once() {
    let mut state: ReceiverState<&str> = ReceiverState::new();
    state.handle_offer("alice".to_string(), 1);
    assert_eq!(state.handle_receiver_candidate(1, "now"), Some("now"));
    assert_eq!(state.pending_len(), 0);
}

#[test]
fn candidate_of_another_round_changes_nothing() {
    let mut state: ReceiverState<&str> = ReceiverState::new();
    state.handle_offer("alice".to_string(), 2);
    assert_eq!(state.handle_receiver_candidate(3, "later round"), None);
    assert_eq!(state.handle_receiver_candidate(1, "earlier round"), None);
    assert_eq!(state.handle_receiver_candidate(2, "this round"), Some("this round"));
    assert_eq!(*state.peer_id(), Some("alice".to_string()));
    assert_eq!(state.active_sid(), Some(2));
    assert!(state.remote_desc_set());
    assert_eq!(state.pending_len(), 0);
    assert_eq!(state.handle_offer("alice".to_string(), 3), Vec::<&str>::new());
    assert_eq!(state.active_sid(), Some(3));
    assert_eq!(state.pending_len(), 0);
}

#[test]
fn first_offer_keeps_early_entries_of_other_rounds() {
    let mut state: ReceiverState<u32> = ReceiverState::new();
    assert_eq!(state.handle_receiver_candidate(1, 10), None);
    assert_eq!(state.handle_receiver_candidate(2, 20), None);
    assert_eq!(state.handle_receiver_candidate(1, 11), None);
    assert_eq!(state.handle_offer("bob".to_string(), 2), vec![20]);
    assert_eq!(state.pending_len(), 2);
    assert_eq!(state.flush_receiver_candidates(), Vec::<u32>::new());
    assert_eq!(state.pending_len(), 2);
}

#[test]
fn flush_without_an_offer_does_nothing() {
    let mut state: ReceiverState<u32> = ReceiverState::new();
    assert_eq!(state.handle_receiver_candidate(1, 10), None);
    assert_eq!(state.flush_receiver_candidates(), Vec::<u32>::new());
    assert_eq!(state.pending_len(), 1);
}

#[test]
fn local_candidate_needs_peer_and_round() {
    let mut state: ReceiverState<u32> = ReceiverState::new();
    assert_eq!(state.local_candidate_target(&Some(1)), None);
    state.handle_offer("alice".to_string(), 3);
    assert_eq!(state.local_candidate_target(&Some(1)), Some(("alice".to_string(), 3)));
    assert_eq!(state.local_candidate_target(&None), None);
}
