use pairlane::offerer::OffererPeerState;

#[test]
fn new_session_has_no_round() {
    let state: OffererPeerState<u32> = OffererPeerState::new();
    assert_eq!(state.active_sid(), None);
    assert!(!state.remote_desc_set());
    assert!(!state.sending());
    assert_eq!(state.pending_len(), 0);
}

#[test]
fn first_offer_opens_round_one() {
    let mut state: OffererPeerState<u32> = OffererPeerState::new();
    assert_eq!(state.send_offer(), Some(1));
    assert_eq!(state.active_sid(), Some(1));
    assert!(!state.remote_desc_set());
}

#[test]
fn second_offer_while_one_is_outstanding_is_a_no_op() {
    let mut state: OffererPeerState<u32> = OffererPeerState::new();
    assert_eq!(state.send_offer(), Some(1));
    assert_eq!(state.send_offer(), None);
    assert_eq!(state.send_offer(), None);
    assert_eq!(state.active_sid(), Some(1));
    assert!(!state.remote_desc_set());
}

#[test]
fn rounds_increase_strictly() {
    let mut state: OffererPeerState<u32> = OffererPeerState::new();
    let mut last: u64 = 0;
    let mut n = 0;
    while n < 20 {
        let sid = state.send_offer().unwrap();
        assert!(sid > last);
        assert_eq!(sid, last + 1);
        last = sid;
        assert!(state.handle_answer(sid).is_some());
        n += 1;
    }
}

#[test]
fn stale_answer_changes_nothing() {
    let mut state: OffererPeerState<u32> = OffererPeerState::new();
    assert_eq!(state.send_offer(), Some(1));
    assert_eq!(state.handle_answer(1), Some(vec![]));
    assert!(state.remote_desc_set());
    assert_eq!(state.send_offer(), Some(2));
    assert_eq!(state.active_sid(), Some(2));
    assert!(!state.remote_desc_set());
    assert_eq!(state.handle_offer_candidate(2, 5), None);

    assert_eq!(state.handle_answer(1), None);

    assert_eq!(state.active_sid(), Some(2));
    assert!(!state.remote_desc_set());
    assert!(!state.sending());
    assert_eq!(state.pending_len(), 1);
}

#[test]
fn answer_before_any_offer_is_stale() {
    let mut state: OffererPeerState<u32> = OffererPeerState::new();
    assert_eq!(state.handle_answer(0), None);
    assert_eq!(state.handle_answer(1), None);
    assert!(!state.remote_desc_set());
    assert_eq!(state.active_sid(), None);
}

#[test]
fn buffered_candidates_are_applied_once_in_arrival_order() {
    let mut state: OffererPeerState<&str> = OffererPeerState::new();
    assert_eq!(state.send_offer(), Some(1));
    assert_eq!(state.handle_offer_candidate(1, "first"), None);
    assert_eq!(state.handle_offer_candidate(1, "second"), None);
    assert_eq!(state.handle_offer_candidate(1, "third"), None);
    assert_eq!(state.pending_len(), 3);

    assert_eq!(state.handle_answer(1), Some(vec!["first", "second", "third"]));

    assert!(state.remote_desc_set());
    assert_eq!(state.pending_len(), 0);
    assert_eq!(state.flush_offer_candidates(), Vec::<&str>::new());
    assert_eq!(state.handle_answer(1), Some(vec![]));
}

#[test]
fn candidate_after_the_answer_is_applied_at_once() {
    let mut state: OffererPeerState<&str> = OffererPeerState::new();
    assert_eq!(state.send_offer(), Some(1));
    assert_eq!(state.handle_answer(1), Some(vec![]));
    assert_eq!(state.handle_offer_candidate(1, "late"), Some("late"));
    assert_eq!(state.pending_len(), 0);
}

#[test]
fn stale_candidate_changes_nothing_once_the_answer_is_applied() {
    let mut state: OffererPeerState<&str> = OffererPeerState::new();
    assert_eq!(state.send_offer(), Some(1));
    assert_eq!(state.handle_answer(1), Some(vec![]));
    assert_eq!(state.handle_offer_candidate(9, "other round"), None);
    assert_eq!(state.pending_len(), 0);
    assert_eq!(state.active_sid(), Some(1));
    assert!(state.remote_desc_set());
    assert!(!state.sending());
    assert_eq!(state.flush_offer_candidates(), Vec::<&str>::new());
}

#[test]
fn stale_candidate_changes_nothing_while_the_answer_is_outstanding() {
    let mut state: OffererPeerState<&str> = OffererPeerState::new();
    assert_eq!(state.send_offer(), Some(1));
    assert_eq!(state.handle_offer_candidate(1, "this round"), None);
    assert_eq!(state.handle_offer_candidate(2, "later round"), None);
    assert_eq!(state.handle_offer_candidate(0, "earlier round"), None);
    assert_eq!(state.pending_len(), 1);
    assert_eq!(state.active_sid(), Some(1));
    assert!(!state.remote_desc_set());
    assert_eq!(state.handle_answer(1), Some(vec!["this round"]));
}

#[test]
fn stale_candidate_changes_nothing_after_renegotiation() {
    let mut state: OffererPeerState<&str> = OffererPeerState::new();
    assert_eq!(state.send_offer(), Some(1));
    assert_eq!(state.handle_answer(1), Some(vec![]));
    assert_eq!(state.send_offer(), Some(2));
    assert_eq!(state.handle_offer_candidate(1, "round one"), None);
    assert_eq!(state.pending_len(), 0);
    assert_eq!(state.active_sid(), Some(2));
    assert!(!state.remote_desc_set());
    assert_eq!(state.handle_answer(2), Some(vec![]));
    assert_eq!(state.handle_offer_candidate(1, "round one"), None);
    assert_eq!(state.pending_len(), 0);
    assert!(state.remote_desc_set());
}

#[test]
fn flush_without_a_round_does_nothing() {
    let mut state: OffererPeerState<&str> = OffererPeerState::new();
    assert_eq!(state.handle_offer_candidate(1, "early"), None);
    assert_eq!(state.flush_offer_candidates(), Vec::<&str>::new());
    assert_eq!(state.pending_len(), 1);
}

#[test]
fn local_candidate_goes_out_under_the_active_round() {
    let mut state: OffererPeerState<u32> = OffererPeerState::new();
    assert_eq!(state.local_candidate_sid(&Some(1)), None);
    assert_eq!(state.send_offer(), Some(1));
    assert_eq!(state.local_candidate_sid(&Some(1)), Some(1));
    assert_eq!(state.local_candidate_sid(&None), None);
}

#[test]
fn channel_open_twice_starts_one_transfer() {
    let mut state: OffererPeerState<u32> = OffererPeerState::new();
    assert!(state.begin_sending());
    assert!(!state.begin_sending());
    assert!(!state.begin_sending());
    assert!(state.sending());
}
