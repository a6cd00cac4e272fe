//! The sending side's coordinator: it owns one offering session per peer and
//! turns each signaling message and each event of the networking layer into
//! the actions to perform.

use vstd::prelude::*;
use crate::candidates::due;
use crate::messages::{
    is_offerer_role, offerer_role, ClientMessage, LoopStep, ServerMessage, SessionError,
    SignalFrame,
};
use crate::offerer::{OffererPeerState, OffererPeerView};

verus! {

/// What the caller has to do for the sending side, in the order given.
#[derive(Clone, Debug, PartialEq, Eq)]
pub enum SendAction<S, C> {
    /// Create a connection and a data channel for the peer, and make a
    /// local offer to be sent under round `sid`.
    OpenPeer { peer_id: String, sid: u64 },
    /// Apply the peer's answer as the remote description.
    ApplyRemoteDescription { peer_id: String, sdp: S },
    /// Apply a remote candidate to the peer's connection.
    AddIceCandidate { peer_id: String, candidate: C },
    /// Close the peer's connection and drop it.
    ClosePeer { peer_id: String },
    /// Queue a message for the signaling service.
    Signal(ClientMessage<S, C>),
    /// Close every open connection, as far as that succeeds.
    CloseAllPeers,
    /// End the dispatch loop; queued messages need not be written.
    Finish,
}

/// A peer's identifier with its session.
pub struct OffererPeer<C> {
    peer_id: String,
    state: OffererPeerState<C>,
}

/// The sessions of `peers` by peer identifier; where an identifier occurs
/// more than once, the entry furthest back counts.
pub closed spec fn peer_map<C>(peers: Seq<OffererPeer<C>>) -> Map<Seq<char>, OffererPeerView<C>>
    decreases peers.len(),
{
    if peers.len() == 0 {
        Map::empty()
    } else {
        peer_map(peers.drop_last()).insert(peers.last().peer_id@, peers.last().state@)
    }
}

proof fn lemma_peer_map_absent<C>(peers: Seq<OffererPeer<C>>, id: Seq<char>)
    requires
        forall|j: int| 0 <= j < peers.len() ==> peers[j].peer_id@ != id,
    ensures
        !peer_map(peers).contains_key(id),
    decreases peers.len(),
{
    if peers.len() > 0 {
        lemma_peer_map_absent(peers.drop_last(), id);
    }
}

proof fn lemma_peer_map_found<C>(peers: Seq<OffererPeer<C>>, i: int)
    requires
        0 <= i < peers.len(),
        forall|j: int| i < j < peers.len() ==> peers[j].peer_id@ != peers[i].peer_id@,
    ensures
        peer_map(peers).contains_key(peers[i].peer_id@),
        peer_map(peers)[peers[i].peer_id@] == peers[i].state@,
    decreases peers.len(),
{
    if i < peers.len() - 1 {
        lemma_peer_map_found(peers.drop_last(), i);
    }
}

proof fn lemma_peer_map_update<C>(peers: Seq<OffererPeer<C>>, i: int, peer: OffererPeer<C>)
    requires
        0 <= i < peers.len(),
        peer.peer_id@ == peers[i].peer_id@,
        forall|j: int| i < j < peers.len() ==> peers[j].peer_id@ != peers[i].peer_id@,
    ensures
        peer_map(peers.update(i, peer)) == peer_map(peers).insert(peer.peer_id@, peer.state@),
    decreases peers.len(),
{
    let updated = peers.update(i, peer);
    if i == peers.len() - 1 {
        assert(updated.drop_last() == peers.drop_last());
    } else {
        assert(updated.drop_last() == peers.drop_last().update(i, peer));
        lemma_peer_map_update(peers.drop_last(), i, peer);
    }
    assert(peer_map(updated) =~= peer_map(peers).insert(peer.peer_id@, peer.state@));
}

/// Mathematical model of the sending side's coordinator.
pub struct SendCoordinatorView<C> {
    /// The session of each known peer.
    pub peers: Map<Seq<char>, OffererPeerView<C>>,
    /// Whether the session goes on after a transfer has finished.
    pub stay_open: bool,
}

/// The actions that follow an accepted answer: the description first, then
/// the candidates that waited for it, in arrival order.
pub open spec fn answer_actions<S, C>(from: String, sdp: S, applied: Seq<C>) -> Seq<
    SendAction<S, C>,
> {
    seq![SendAction::ApplyRemoteDescription { peer_id: from, sdp }] + applied.map_values(
        |candidate: C| SendAction::AddIceCandidate { peer_id: from, candidate },
    )
}

impl<C> SendCoordinatorView<C> {
    /// The coordinator after `msg`.
    pub open spec fn after_message<S>(self, msg: ServerMessage<S, C>) -> Self {
        match msg {
            ServerMessage::Start { peer_id: Some(peer_id) } => SendCoordinatorView {
                peers: self.peers.insert(peer_id@, OffererPeerView::<C>::fresh().offered()),
                ..self
            },
            ServerMessage::Answer { from, sid, sdp } => if self.peers.contains_key(from@)
                && self.peers[from@].active_sid == Some(sid) {
                SendCoordinatorView {
                    peers: self.peers.insert(from@, self.peers[from@].answered(sid)),
                    ..self
                }
            } else {
                self
            },
            ServerMessage::Candidate { from, sid, candidate } => if self.peers.contains_key(from@) {
                SendCoordinatorView {
                    peers: self.peers.insert(
                        from@,
                        self.peers[from@].after_candidate(sid, candidate),
                    ),
                    ..self
                }
            } else {
                self
            },
            ServerMessage::PeerLeft { peer_id } => SendCoordinatorView {
                peers: self.peers.remove(peer_id@),
                ..self
            },
            _ => self,
        }
    }

    /// What `msg` asks for: the actions to perform, or the failure that ends
    /// the session.
    pub open spec fn message_actions<S>(self, msg: ServerMessage<S, C>) -> Result<
        Seq<SendAction<S, C>>,
        SessionError,
    > {
        match msg {
            ServerMessage::Role { role, cid } => if role@ == offerer_role() {
                Ok(Seq::empty())
            } else {
                Err(SessionError::RoleMismatch)
            },
            ServerMessage::Start { peer_id: Some(peer_id) } => Ok(
                seq![SendAction::OpenPeer { peer_id, sid: 1 }],
            ),
            ServerMessage::Answer { from, sid, sdp } => if self.peers.contains_key(from@)
                && self.peers[from@].active_sid == Some(sid) {
                Ok(answer_actions(from, sdp, due(self.peers[from@].pending, sid)))
            } else {
                Ok(Seq::empty())
            },
            ServerMessage::Candidate { from, sid, candidate } => if self.peers.contains_key(from@)
                && self.peers[from@].applies_now(sid) {
                Ok(seq![SendAction::AddIceCandidate { peer_id: from, candidate }])
            } else {
                Ok(Seq::empty())
            },
            ServerMessage::PeerLeft { peer_id } => if self.peers.contains_key(peer_id@) {
                Ok(seq![SendAction::ClosePeer { peer_id }])
            } else {
                Ok(Seq::empty())
            },
            _ => Ok(Seq::empty()),
        }
    }

    /// The coordinator after `frame`.
    pub open spec fn after_frame<S>(self, frame: SignalFrame<S, C>) -> Self {
        match frame {
            SignalFrame::Message(msg) => self.after_message(msg),
            _ => self,
        }
    }

    /// What `frame` asks for: actions to perform before the next frame is
    /// read, the orderly end of the loop (`None`), or a failure.
    pub open spec fn frame_outcome<S>(self, frame: SignalFrame<S, C>) -> Result<
        Option<Seq<SendAction<S, C>>>,
        SessionError,
    > {
        match frame {
            SignalFrame::Message(msg) => match self.message_actions(msg) {
                Ok(actions) => Ok(Some(actions)),
                Err(e) => Err(e),
            },
            SignalFrame::Malformed | SignalFrame::NotText => Ok(Some(Seq::empty())),
            SignalFrame::Closed => Ok(None),
            SignalFrame::Failed => Err(SessionError::Transport),
        }
    }

    /// The coordinator after the channel of `peer_id` has opened.
    pub open spec fn after_channel_open(self, peer_id: Seq<char>) -> Self {
        if self.peers.contains_key(peer_id) {
            SendCoordinatorView {
                peers: self.peers.insert(peer_id, self.peers[peer_id].claimed()),
                ..self
            }
        } else {
            self
        }
    }

    /// Whether the opening of the channel of `peer_id` starts a transfer.
    pub open spec fn starts_transfer(self, peer_id: Seq<char>) -> bool {
        self.peers.contains_key(peer_id) && self.peers[peer_id].starts_transfer()
    }

    /// What follows the end of the transfer to `peer_id`.
    pub open spec fn finish_actions<S>(self, peer_id: String, ok: bool) -> Seq<SendAction<S, C>> {
        if !ok {
            Seq::empty()
        } else if self.stay_open {
            seq![SendAction::Signal(ClientMessage::TransferDone { peer_id })]
        } else {
            seq![
                SendAction::Signal(ClientMessage::TransferDone { peer_id }),
                SendAction::CloseAllPeers,
                SendAction::Finish,
            ]
        }
    }
}

/// An answer tagged with another round than the active one of its sender
/// changes nothing and asks for nothing.
pub proof fn lemma_stale_answer_is_ignored<S, C>(
    coordinator: SendCoordinatorView<C>,
    from: String,
    sid: u64,
    sdp: S,
)
    requires
        coordinator.peers.contains_key(from@) ==> coordinator.peers[from@].active_sid != Some(
            sid,
        ),
    ensures
        coordinator.after_message(ServerMessage::<S, C>::Answer { from, sid, sdp }) == coordinator,
        coordinator.message_actions(ServerMessage::<S, C>::Answer { from, sid, sdp }) == Ok::<
            Seq<SendAction<S, C>>,
            SessionError,
        >(Seq::empty()),
{
}

/// A candidate tagged with another round than the active one of its sender
/// changes nothing and asks for nothing.
pub proof fn lemma_stale_candidate_is_ignored<S, C>(
    coordinator: SendCoordinatorView<C>,
    from: String,
    sid: u64,
    candidate: C,
)
    requires
        coordinator.peers.contains_key(from@),
        coordinator.peers[from@].is_stale(sid),
    ensures
        coordinator.after_message(ServerMessage::<S, C>::Candidate { from, sid, candidate })
            == coordinator,
        coordinator.message_actions(ServerMessage::<S, C>::Candidate { from, sid, candidate })
            == Ok::<Seq<SendAction<S, C>>, SessionError>(Seq::empty()),
{
    let after = coordinator.after_message(
        ServerMessage::<S, C>::Candidate { from, sid, candidate },
    );
    assert(after.peers =~= coordinator.peers);
}

/// However often the channel of a peer opens, a transfer to that peer
/// starts at most once: after one opening no further opening starts one.
pub proof fn lemma_channel_open_starts_once<C>(
    coordinator: SendCoordinatorView<C>,
    peer_id: Seq<char>,
)
    ensures
        !coordinator.after_channel_open(peer_id).starts_transfer(peer_id),
        coordinator.after_channel_open(peer_id).after_channel_open(peer_id)
            == coordinator.after_channel_open(peer_id),
{
    let once = coordinator.after_channel_open(peer_id);
    assert(once.after_channel_open(peer_id).peers =~= once.peers);
}

/// The sending side's coordinator.
pub struct SendCoordinator<C> {
    peers: Vec<OffererPeer<C>>,
    stay_open: bool,
}

impl<C> View for SendCoordinator<C> {
    type V = SendCoordinatorView<C>;

    closed spec fn view(&self) -> SendCoordinatorView<C> {
        SendCoordinatorView { peers: peer_map(self.peers@), stay_open: self.stay_open }
    }
}

impl<C> SendCoordinator<C> {
    /// A coordinator without peers.
    pub fn new(stay_open: bool) -> (coordinator: Self)
        ensures
            coordinator@ == (SendCoordinatorView::<C> { peers: Map::empty(), stay_open }),
    {
        SendCoordinator { peers: Vec::new(), stay_open }
    }

    /// The position of the entry that counts for `peer_id`.
    fn find(&self, peer_id: &String) -> (found: Option<usize>)
        ensures
            match found {
                Some(i) => i < self.peers@.len() && self.peers@[i as int].peer_id@ == peer_id@
                    && self@.peers.contains_key(peer_id@) && self@.peers[peer_id@]
                    == self.peers@[i as int].state@ && forall|j: int|
                    i < j < self.peers@.len() ==> self.peers@[j].peer_id@ != peer_id@,
                None => !self@.peers.contains_key(peer_id@),
            },
    {
        let mut i: usize = self.peers.len();
        while i > 0
            invariant
                i <= self.peers@.len(),
                forall|j: int| i <= j < self.peers@.len() ==> self.peers@[j].peer_id@ != peer_id@,
            decreases i,
        {
            i = i - 1;
            if self.peers[i].peer_id == *peer_id {
                proof {
                    lemma_peer_map_found(self.peers@, i as int);
                }
                return Some(i);
            }
        }
        proof {
            lemma_peer_map_absent(self.peers@, peer_id@);
        }
        None
    }

    /// Drops every entry for `peer_id`.
    fn remove_all(&mut self, peer_id: &String)
        ensures
            final(self)@.peers == old(self)@.peers.remove(peer_id@),
            final(self)@.stay_open == old(self)@.stay_open,
    {
        let mut all: Vec<OffererPeer<C>> = Vec::new();
        core::mem::swap(&mut self.peers, &mut all);
        let ghost before = all@;
        let mut rest: Vec<OffererPeer<C>> = Vec::new();
        for peer in it: all
            invariant
                it.seq() == before,
                peer_map(rest@) == peer_map(before.take(it.index() as int)).remove(peer_id@),
        {
            proof {
                let n = it.index() as int;
                assert(before.take(n + 1).drop_last() == before.take(n));
                assert(before.take(n + 1).last() == peer);
            }
            if peer.peer_id == *peer_id {
                assert(peer_map(rest@) =~= peer_map(before.take(it.index() + 1)).remove(peer_id@));
            } else {
                let ghost shorter = rest@;
                rest.push(peer);
                proof {
                    assert(rest@.drop_last() == shorter);
                    assert(peer_map(rest@) =~= peer_map(before.take(it.index() + 1)).remove(
                        peer_id@,
                    ));
                }
            }
        }
        proof {
            assert(before.take(before.len() as int) == before);
        }
        self.peers = rest;
    }

    /// The session of the peer, if it has one.
    pub fn session_of(&self, peer_id: &String) -> (session: Option<&OffererPeerState<C>>)
        ensures
            match session {
                Some(state) => self@.peers.contains_key(peer_id@) && self@.peers[peer_id@]
                    == state@,
                None => !self@.peers.contains_key(peer_id@),
            },
    {
        match self.find(peer_id) {
            Some(i) => Some(&self.peers[i].state),
            None => None,
        }
    }

    /// Whether the peer has a session.
    pub fn has_peer(&self, peer_id: &String) -> (known: bool)
        ensures
            known == self@.peers.contains_key(peer_id@),
    {
        self.find(peer_id).is_some()
    }

    /// Handles one message of the signaling service.
    ///
    /// A role other than the offering one ends the session. A start for a
    /// named peer gives that peer a new session with round 1 open. An answer
    /// or a candidate goes to the session of its sender; without one it is
    /// dropped. A peer that left loses its session. Everything else asks for
    /// nothing.
    pub fn on_message<S>(&mut self, msg: ServerMessage<S, C>) -> (result: Result<
        Vec<SendAction<S, C>>,
        SessionError,
    >)
        ensures
            final(self)@ == old(self)@.after_message(msg),
            match old(self)@.message_actions(msg) {
                Ok(actions) => (result matches Ok(list) && list@ == actions),
                Err(e) => result == Err::<Vec<SendAction<S, C>>, SessionError>(e),
            },
    {
        let mut actions: Vec<SendAction<S, C>> = Vec::new();
        match msg {
            ServerMessage::Role { role, cid } => {
                if !is_offerer_role(&role) {
                    return Err(SessionError::RoleMismatch);
                }
            },
            ServerMessage::Start { peer_id: Some(peer_id) } => {
                let mut state: OffererPeerState<C> = OffererPeerState::new();
                let sid = match state.send_offer() {
                    Some(sid) => sid,
                    None => {
                        return Ok(actions);
                    },
                };
                self.remove_all(&peer_id);
                let ghost shorter = self.peers@;
                self.peers.push(OffererPeer { peer_id: peer_id.clone(), state });
                proof {
                    assert(self.peers@.drop_last() == shorter);
                    assert(self@.peers =~= old(self)@.peers.insert(
                        peer_id@,
                        OffererPeerView::<C>::fresh().offered(),
                    ));
                }
                actions.push(SendAction::OpenPeer { peer_id, sid });
            },
            ServerMessage::Answer { from, sid, sdp } => {
                if let Some(i) = self.find(&from) {
                    let ghost before = self.peers@;
                    let outcome = self.peers[i].state.handle_answer(sid);
                    proof {
                        lemma_peer_map_update(before, i as int, self.peers@[i as int]);
                        assert(self.peers@ == before.update(i as int, self.peers@[i as int]));
                    }
                    if let Some(applied) = outcome {
                        actions = Self::answer_list(from, sdp, applied);
                    } else {
                        assert(self@.peers =~= old(self)@.peers);
                    }
                }
            },
            ServerMessage::Candidate { from, sid, candidate } => {
                if let Some(i) = self.find(&from) {
                    let ghost before = self.peers@;
                    let now = self.peers[i].state.handle_offer_candidate(sid, candidate);
                    proof {
                        lemma_peer_map_update(before, i as int, self.peers@[i as int]);
                        assert(self.peers@ == before.update(i as int, self.peers@[i as int]));
                    }
                    if let Some(candidate) = now {
                        actions.push(SendAction::AddIceCandidate { peer_id: from, candidate });
                    }
                }
            },
            ServerMessage::PeerLeft { peer_id } => {
                if self.find(&peer_id).is_some() {
                    self.remove_all(&peer_id);
                    actions.push(SendAction::ClosePeer { peer_id });
                } else {
                    assert(self@.peers =~= old(self)@.peers.remove(peer_id@));
                }
            },
            _ => {},
        }
        Ok(actions)
    }

    /// Builds the actions that follow an accepted answer.
    fn answer_list<S>(from: String, sdp: S, applied: Vec<C>) -> (actions: Vec<SendAction<S, C>>)
        ensures
            actions@ == answer_actions(from, sdp, applied@),
    {
        let ghost all = applied@;
        let mut actions: Vec<SendAction<S, C>> = Vec::new();
        actions.push(SendAction::ApplyRemoteDescription { peer_id: from.clone(), sdp });
        for candidate in it: applied
            invariant
                it.seq() == all,
                actions@ == answer_actions(from, sdp, all.take(it.index() as int)),
        {
            actions.push(SendAction::AddIceCandidate { peer_id: from.clone(), candidate });
            proof {
                let n = it.index() as int;
                assert(all.take(n + 1) == all.take(n).push(candidate));
                assert(actions@ =~= answer_actions(from, sdp, all.take(n + 1)));
            }
        }
        proof {
            assert(all.take(all.len() as int) == all);
        }
        actions
    }

    /// Handles one frame read from the signaling connection. Frames that
    /// hold no known message are skipped; the end of the connection ends the
    /// loop; a failed read ends the session.
    pub fn on_frame<S>(&mut self, frame: SignalFrame<S, C>) -> (step: LoopStep<SendAction<S, C>>)
        ensures
            final(self)@ == old(self)@.after_frame(frame),
            match old(self)@.frame_outcome(frame) {
                Ok(Some(actions)) => (step matches LoopStep::Continue(list) && list@ == actions),
                Ok(None) => step is Closed,
                Err(e) => (step matches LoopStep::Abort(err) && err == e),
            },
    {
        match frame {
            SignalFrame::Message(msg) => match self.on_message(msg) {
                Ok(actions) => LoopStep::Continue(actions),
                Err(e) => LoopStep::Abort(e),
            },
            SignalFrame::Malformed => LoopStep::Continue(Vec::new()),
            SignalFrame::NotText => LoopStep::Continue(Vec::new()),
            SignalFrame::Closed => LoopStep::Closed,
            SignalFrame::Failed => LoopStep::Abort(SessionError::Transport),
        }
    }

    /// The message that carries the local offer of `peer_id` for round
    /// `sid`, when the networking layer produced a local description.
    pub fn offer_message<S>(peer_id: String, sid: u64, local: Option<S>) -> (msg: Option<
        ClientMessage<S, C>,
    >)
        ensures
            msg == match local {
                Some(sdp) => Some(ClientMessage::<S, C>::Offer { to: peer_id, sid, sdp }),
                None => None,
            },
    {
        match local {
            Some(sdp) => Some(ClientMessage::Offer { to: peer_id, sid, sdp }),
            None => None,
        }
    }

    /// The message that carries a locally gathered candidate to `peer_id`:
    /// there is one when gathering produced a candidate and the peer's
    /// session has an active round, under which it is sent.
    pub fn on_local_candidate<S>(&self, peer_id: &String, candidate: Option<C>) -> (msg: Option<
        ClientMessage<S, C>,
    >)
        ensures
            msg == match candidate {
                Some(c) => if self@.peers.contains_key(peer_id@) {
                    match self@.peers[peer_id@].active_sid {
                        Some(sid) => Some(
                            ClientMessage::<S, C>::Candidate { to: *peer_id, sid, candidate: c },
                        ),
                        None => None,
                    }
                } else {
                    None
                },
                None => None,
            },
    {
        match candidate {
            Some(c) => match self.find(peer_id) {
                Some(i) => match self.peers[i].state.active_sid() {
                    Some(sid) => Some(
                        ClientMessage::Candidate { to: peer_id.clone(), sid, candidate: c },
                    ),
                    None => None,
                },
                None => None,
            },
            None => None,
        }
    }

    /// Reacts to the opening of the data channel of `peer_id`. Returns
    /// whether a transfer is to be started now: only the first opening of a
    /// known peer's channel starts one.
    pub fn on_channel_open(&mut self, peer_id: &String) -> (start: bool)
        ensures
            start == old(self)@.starts_transfer(peer_id@),
            final(self)@ == old(self)@.after_channel_open(peer_id@),
    {
        match self.find(peer_id) {
            Some(i) => {
                let ghost before = self.peers@;
                let start = self.peers[i].state.begin_sending();
                proof {
                    lemma_peer_map_update(before, i as int, self.peers@[i as int]);
                    assert(self.peers@ == before.update(i as int, self.peers@[i as int]));
                }
                start
            },
            None => false,
        }
    }

    /// What follows the end of the transfer to `peer_id`. A failed transfer
    /// asks for nothing. A finished one is reported to the peer, and ends the
    /// whole session unless it is to stay open.
    pub fn on_transfer_finished<S>(&self, peer_id: String, ok: bool) -> (actions: Vec<
        SendAction<S, C>,
    >)
        ensures
            actions@ == self@.finish_actions::<S>(peer_id, ok),
    {
        let mut actions: Vec<SendAction<S, C>> = Vec::new();
        if ok {
            actions.push(SendAction::Signal(ClientMessage::TransferDone { peer_id }));
            if !self.stay_open {
                actions.push(SendAction::CloseAllPeers);
                actions.push(SendAction::Finish);
            }
        }
        actions
    }
}

} // verus!
