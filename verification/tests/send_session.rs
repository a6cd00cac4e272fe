use pairlane::messages::{ClientMessage, LoopStep, ServerMessage, SessionError, SignalFrame};
use pairlane::send_session::{SendAction, SendCoordinator};

type Msg = ServerMessage<String, u32>;
type Act = SendAction<String, u32>;

fn id(s: &str) -> String {
    s.to_string()
}

fn started(peer: &str) -> SendCoordinator<u32> {
    let mut c: SendCoordinator<u32> = SendCoordinator::new(false);
    let r = c.on_message::<String>(Msg::Start { peer_id: Some(id(peer)) });
    assert_eq!(r, Ok(vec![Act::OpenPeer { peer_id: id(peer), sid: 1 }]));
    c
}

#[test]
fn offerer_role_is_accepted() {
    let mut c: SendCoordinator<u32> = SendCoordinator::new(false);
    let r = c.on_message::<String>(Msg::Role { role: id("offerer"), cid: id("c1") });
    assert_eq!(r, Ok(vec![]));
}

#[test]
fn other_role_is_a_protocol_violation() {
    let mut c: SendCoordinator<u32> = SendCoordinator::new(false);
    let r = c.on_message::<String>(Msg::Role { role: id("answerer"), cid: id("c1") });
    assert_eq!(r, Err(SessionError::RoleMismatch));
    let r = c.on_message::<String>(Msg::Role { role: id(""), cid: id("c1") });
    assert_eq!(r, Err(SessionError::RoleMismatch));
    let r = c.on_message::<String>(Msg::Role { role: id("Offerer"), cid: id("c1") });
    assert_eq!(r, Err(SessionError::RoleMismatch));
}

#[test]
fn informational_messages_ask_for_nothing() {
    let mut c: SendCoordinator<u32> = SendCoordinator::new(false);
    assert_eq!(c.on_message::<String>(Msg::Peers { count: 2 }), Ok(vec![]));
    assert_eq!(c.on_message::<String>(Msg::Wait { position: Some(3) }), Ok(vec![]));
    assert_eq!(c.on_message::<String>(Msg::Wait { position: None }), Ok(vec![]));
    assert_eq!(c.on_message::<String>(Msg::Start { peer_id: None }), Ok(vec![]));
    assert_eq!(
        c.on_message::<String>(Msg::Offer { from: id("x"), sid: 1, sdp: id("sdp") }),
        Ok(vec![])
    );
}

#[test]
fn start_opens_a_peer_with_round_one() {
    let c = started("alice");
    assert!(c.has_peer(&id("alice")));
    assert!(!c.has_peer(&id("bob")));
}

#[test]
fn answer_is_applied_then_buffered_candidates_in_order() {
    let mut c = started("alice");
    assert_eq!(c.on_message::<String>(Msg::Candidate { from: id("alice"), sid: 1, candidate: 10 }), Ok(vec![]));
    assert_eq!(c.on_message::<String>(Msg::Candidate { from: id("alice"), sid: 1, candidate: 11 }), Ok(vec![]));
    assert_eq!(c.on_message::<String>(Msg::Candidate { from: id("alice"), sid: 1, candidate: 12 }), Ok(vec![]));
    let r = c.on_message(Msg::Answer { from: id("alice"), sid: 1, sdp: id("answer") });
    assert_eq!(
        r,
        Ok(vec![
            Act::ApplyRemoteDescription { peer_id: id("alice"), sdp: id("answer") },
            Act::AddIceCandidate { peer_id: id("alice"), candidate: 10 },
            Act::AddIceCandidate { peer_id: id("alice"), candidate: 11 },
            Act::AddIceCandidate { peer_id: id("alice"), candidate: 12 },
        ])
    );
    let r = c.on_message::<String>(Msg::Candidate { from: id("alice"), sid: 1, candidate: 13 });
    assert_eq!(r, Ok(vec![Act::AddIceCandidate { peer_id: id("alice"), candidate: 13 }]));
}

#[test]
fn stale_answer_is_ignored() {
    let mut c = started("alice");
    let r = c.on_message(Msg::Answer { from: id("alice"), sid: 2, sdp: id("answer") });
    assert_eq!(r, Ok(vec![]));
    let r = c.on_message::<String>(Msg::Candidate { from: id("alice"), sid: 1, candidate: 10 });
    assert_eq!(r, Ok(vec![]));
}

#[test]
fn messages_of_unknown_peers_are_dropped() {
    let mut c = started("alice");
    let r = c.on_message(Msg::Answer { from: id("bob"), sid: 1, sdp: id("answer") });
    assert_eq!(r, Ok(vec![]));
    let r = c.on_message::<String>(Msg::Candidate { from: id("bob"), sid: 1, candidate: 1 });
    assert_eq!(r, Ok(vec![]));
    let r = c.on_message::<String>(Msg::PeerLeft { peer_id: id("bob") });
    assert_eq!(r, Ok(vec![]));
    assert!(c.has_peer(&id("alice")));
}

#[test]
fn peers_are_kept_apart() {
    let mut c = started("alice");
    let r = c.on_message::<String>(Msg::Start { peer_id: Some(id("bob")) });
    assert_eq!(r, Ok(vec![Act::OpenPeer { peer_id: id("bob"), sid: 1 }]));
    assert_eq!(c.on_message::<String>(Msg::Candidate { from: id("alice"), sid: 1, candidate: 1 }), Ok(vec![]));
    assert_eq!(c.on_message::<String>(Msg::Candidate { from: id("bob"), sid: 1, candidate: 2 }), Ok(vec![]));
    let r = c.on_message(Msg::Answer { from: id("bob"), sid: 1, sdp: id("b") });
    assert_eq!(
        r,
        Ok(vec![
            Act::ApplyRemoteDescription { peer_id: id("bob"), sdp: id("b") },
            Act::AddIceCandidate { peer_id: id("bob"), candidate: 2 },
        ])
    );
    let r = c.on_message(Msg::Answer { from: id("alice"), sid: 1, sdp: id("a") });
    assert_eq!(
        r,
        Ok(vec![
            Act::ApplyRemoteDescription { peer_id: id("alice"), sdp: id("a") },
            Act::AddIceCandidate { peer_id: id("alice"), candidate: 1 },
        ])
    );
}

#[test]
fn peer_left_removes_and_closes_the_peer() {
    let mut c = started("alice");
    let r = c.on_message::<String>(Msg::PeerLeft { peer_id: id("alice") });
    assert_eq!(r, Ok(vec![Act::ClosePeer { peer_id: id("alice") }]));
    assert!(!c.has_peer(&id("alice")));
    let r = c.on_message(Msg::Answer { from: id("alice"), sid: 1, sdp: id("a") });
    assert_eq!(r, Ok(vec![]));
    assert!(!c.on_channel_open(&id("alice")));
}

#[test]
fn start_for_a_known_peer_replaces_its_session() {
    let mut c = started("alice");
    assert_eq!(c.on_message::<String>(Msg::Candidate { from: id("alice"), sid: 1, candidate: 1 }), Ok(vec![]));
    assert!(c.on_channel_open(&id("alice")));
    let r = c.on_message::<String>(Msg::Start { peer_id: Some(id("alice")) });
    assert_eq!(r, Ok(vec![Act::OpenPeer { peer_id: id("alice"), sid: 1 }]));
    let r = c.on_message(Msg::Answer { from: id("alice"), sid: 1, sdp: id("a") });
    assert_eq!(r, Ok(vec![Act::ApplyRemoteDescription { peer_id: id("alice"), sdp: id("a") }]));
    assert!(c.on_channel_open(&id("alice")));
}

#[test]
fn channel_of_a_peer_open_twice_starts_one_transfer() {
    let mut c = started("alice");
    assert!(c.on_channel_open(&id("alice")));
    assert!(!c.on_channel_open(&id("alice")));
    assert!(!c.on_channel_open(&id("alice")));
    assert!(!c.on_channel_open(&id("bob")));
}

#[test]
fn local_candidate_is_sent_under_the_active_round() {
    let c = started("alice");
    let m: Option<ClientMessage<String, u32>> = c.on_local_candidate(&id("alice"), Some(7));
    assert_eq!(m, Some(ClientMessage::Candidate { to: id("alice"), sid: 1, candidate: 7 }));
    let m: Option<ClientMessage<String, u32>> = c.on_local_candidate(&id("alice"), None);
    assert_eq!(m, None);
    let m: Option<ClientMessage<String, u32>> = c.on_local_candidate(&id("bob"), Some(7));
    assert_eq!(m, None);
}

#[test]
fn offer_message_needs_a_local_description() {
    let m = SendCoordinator::<u32>::offer_message(id("alice"), 1, Some(id("offer")));
    assert_eq!(m, Some(ClientMessage::Offer { to: id("alice"), sid: 1, sdp: id("offer") }));
    let m = SendCoordinator::<u32>::offer_message::<String>(id("alice"), 1, None);
    assert_eq!(m, None);
}

#[test]
fn finished_transfer_is_reported_and_ends_the_session() {
    let c = started("alice");
    let r: Vec<Act> = c.on_transfer_finished(id("alice"), true);
    assert_eq!(
        r,
        vec![
            Act::Signal(ClientMessage::TransferDone { peer_id: id("alice") }),
            Act::CloseAllPeers,
            Act::Finish,
        ]
    );
}

#[test]
fn finished_transfer_keeps_an_open_session_running() {
    let c: SendCoordinator<u32> = SendCoordinator::new(true);
    let r: Vec<Act> = c.on_transfer_finished(id("alice"), true);
    assert_eq!(r, vec![Act::Signal(ClientMessage::TransferDone { peer_id: id("alice") })]);
}

#[test]
fn failed_transfer_asks_for_nothing() {
    let c = started("alice");
    let r: Vec<Act> = c.on_transfer_finished(id("alice"), false);
    assert_eq!(r, vec![]);
}

#[test]
fn frames_without_a_message_are_skipped() {
    let mut c = started("alice");
    assert_eq!(c.on_frame::<String>(SignalFrame::Malformed), LoopStep::Continue(vec![]));
    assert_eq!(c.on_frame::<String>(SignalFrame::NotText), LoopStep::Continue(vec![]));
    assert!(c.has_peer(&id("alice")));
}

#[test]
fn closed_connection_ends_the_loop() {
    let mut c = started("alice");
    assert_eq!(c.on_frame::<String>(SignalFrame::Closed), LoopStep::Closed);
}

#[test]
fn failed_read_aborts_the_session() {
    let mut c = started("alice");
    assert_eq!(c.on_frame::<String>(SignalFrame::Failed), LoopStep::Abort(SessionError::Transport));
}

#[test]
fn frame_with_a_message_is_dispatched() {
    let mut c: SendCoordinator<u32> = SendCoordinator::new(false);
    let step = c.on_frame::<String>(SignalFrame::Message(Msg::Start { peer_id: Some(id("alice")) }));
    assert_eq!(step, LoopStep::Continue(vec![Act::OpenPeer { peer_id: id("alice"), sid: 1 }]));
    let step = c.on_frame::<String>(SignalFrame::Message(Msg::Role { role: id("answerer"), cid: id("c") }));
    assert_eq!(step, LoopStep::Abort(SessionError::RoleMismatch));
}

#[test]
fn stale_answer_leaves_the_session_as_it_was() {
    let mut c = started("alice");
    assert_eq!(c.on_message::<String>(Msg::Candidate { from: id("alice"), sid: 1, candidate: 1 }), Ok(vec![]));
    let r = c.on_message(Msg::Answer { from: id("alice"), sid: 7, sdp: id("stale") });
    assert_eq!(r, Ok(vec![]));
    let session = c.session_of(&id("alice")).unwrap();
    assert_eq!(session.active_sid(), Some(1));
    assert!(!session.remote_desc_set());
    assert!(!session.sending());
    assert_eq!(session.pending_len(), 1);
    assert!(c.session_of(&id("bob")).is_none());
}

#[test]
fn stale_candidate_leaves_the_session_as_it_was() {
    let mut c = started("alice");
    assert_eq!(c.on_message::<String>(Msg::Candidate { from: id("alice"), sid: 1, candidate: 1 }), Ok(vec![]));
    assert_eq!(c.on_message::<String>(Msg::Candidate { from: id("alice"), sid: 2, candidate: 2 }), Ok(vec![]));
    {
        let session = c.session_of(&id("alice")).unwrap();
        assert_eq!(session.pending_len(), 1);
        assert_eq!(session.active_sid(), Some(1));
        assert!(!session.remote_desc_set());
    }
    let r = c.on_message(Msg::Answer { from: id("alice"), sid: 1, sdp: id("a") });
    assert_eq!(
        r,
        Ok(vec![
            Act::ApplyRemoteDescription { peer_id: id("alice"), sdp: id("a") },
            Act::AddIceCandidate { peer_id: id("alice"), candidate: 1 },
        ])
    );
    assert_eq!(c.on_message::<String>(Msg::Candidate { from: id("alice"), sid: 2, candidate: 3 }), Ok(vec![]));
    let session = c.session_of(&id("alice")).unwrap();
    assert_eq!(session.pending_len(), 0);
    assert!(session.remote_desc_set());
}
