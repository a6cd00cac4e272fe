//! The receiving side's coordinator: it owns the single answering session
//! and turns each signaling message and each event of the networking layer
//! into the actions to perform.

use vstd::prelude::*;
use crate::answerer::{ReceiverState, ReceiverView};
use crate::candidates::due;
use crate::messages::{
    answerer_role, is_answerer_role, ClientMessage, LoopStep, ServerMessage, SessionError,
    SignalFrame,
};

verus! {

/// What the caller has to do for the receiving side, in the order given.
#[derive(Clone, Debug, PartialEq, Eq)]
pub enum ReceiveAction<S, C> {
    /// Create the connection and get ready for the data channel that the
    /// remote peer will open.
    OpenPeer,
    /// Apply the peer's offer as the remote description.
    ApplyRemoteDescription { sdp: S },
    /// Apply a remote candidate to the connection.
    AddIceCandidate { candidate: C },
    /// Make a local answer, to be sent to `to` under round `sid`.
    CreateAnswer { to: String, sid: u64 },
    /// Close the connection and drop it.
    ClosePeer,
    /// End the dispatch loop; queued messages need not be written.
    Finish,
}

/// Mathematical model of the receiving side's coordinator.
pub struct ReceiveCoordinatorView<C> {
    /// The answering session, once negotiation was started.
    pub session: Option<ReceiverView<C>>,
    /// Whether the session goes on after a transfer has finished.
    pub stay_open: bool,
}

/// The actions that follow an offer: the description first, then the
/// candidates that waited for it, in arrival order, then the answer.
pub open spec fn offer_actions<S, C>(from: String, sid: u64, sdp: S, applied: Seq<C>) -> Seq<
    ReceiveAction<S, C>,
> {
    (seq![ReceiveAction::ApplyRemoteDescription { sdp }] + applied.map_values(
        |candidate: C| ReceiveAction::AddIceCandidate { candidate },
    )).push(ReceiveAction::CreateAnswer { to: from, sid })
}

impl<C> ReceiveCoordinatorView<C> {
    /// The coordinator after `msg`.
    pub open spec fn after_message<S>(self, msg: ServerMessage<S, C>) -> Self {
        match msg {
            ServerMessage::Start { peer_id } => ReceiveCoordinatorView {
                session: Some(ReceiverView::<C>::fresh()),
                ..self
            },
            ServerMessage::Offer { from, sid, sdp } => match self.session {
                Some(session) => ReceiveCoordinatorView {
                    session: Some(session.offered(from, sid)),
                    ..self
                },
                None => self,
            },
            ServerMessage::Candidate { from, sid, candidate } => match self.session {
                Some(session) => ReceiveCoordinatorView {
                    session: Some(session.after_candidate(sid, candidate)),
                    ..self
                },
                None => self,
            },
            _ => self,
        }
    }

    /// What `msg` asks for: the actions to perform, or the failure that ends
    /// the session.
    pub open spec fn message_actions<S>(self, msg: ServerMessage<S, C>) -> Result<
        Seq<ReceiveAction<S, C>>,
        SessionError,
    > {
        match msg {
            ServerMessage::Role { role, cid } => if role@ == answerer_role() {
                Ok(Seq::empty())
            } else {
                Err(SessionError::RoleMismatch)
            },
            ServerMessage::Start { peer_id } => Ok(seq![ReceiveAction::OpenPeer]),
            ServerMessage::Offer { from, sid, sdp } => match self.session {
                Some(session) => Ok(offer_actions(from, sid, sdp, due(session.pending, sid))),
                None => Err(SessionError::ReceiverNotInitialized),
            },
            ServerMessage::Candidate { from, sid, candidate } => match self.session {
                Some(session) => if session.applies_now(sid) {
                    Ok(seq![ReceiveAction::AddIceCandidate { candidate }])
                } else {
                    Ok(Seq::empty())
                },
                None => Ok(Seq::empty()),
            },
            _ => Ok(Seq::empty()),
        }
    }

    /// The coordinator after `frame`.
    pub open spec fn after_frame<S>(self, frame: SignalFrame<S, C>) -> Self {
        match frame {
            SignalFrame::Message(msg) => self.after_message(msg),
            _ => self,
        }
    }

    /// What `frame` asks for: actions to perform before the next frame is
    /// read, the orderly end of the loop (`None`), or a failure.
    pub open spec fn frame_outcome<S>(self, frame: SignalFrame<S, C>) -> Result<
        Option<Seq<ReceiveAction<S, C>>>,
        SessionError,
    > {
        match frame {
            SignalFrame::Message(msg) => match self.message_actions(msg) {
                Ok(actions) => Ok(Some(actions)),
                Err(e) => Err(e),
            },
            SignalFrame::Malformed | SignalFrame::NotText => Ok(Some(Seq::empty())),
            SignalFrame::Closed => Ok(None),
            SignalFrame::Failed => Err(SessionError::Transport),
        }
    }

    /// Where a locally gathered candidate is to be sent.
    pub open spec fn local_candidate_target(self) -> Option<(String, u64)> {
        match self.session {
            Some(session) => session.local_candidate_target(),
            None => None,
        }
    }

    /// The coordinator after a received file was completed.
    pub open spec fn after_transfer_complete(self) -> Self {
        if self.stay_open {
            self
        } else {
            ReceiveCoordinatorView { session: None, ..self }
        }
    }

    /// What follows the completion of a received file.
    pub open spec fn complete_actions<S>(self) -> Seq<ReceiveAction<S, C>> {
        if self.stay_open {
            Seq::empty()
        } else if self.session is Some {
            seq![ReceiveAction::ClosePeer, ReceiveAction::Finish]
        } else {
            seq![ReceiveAction::Finish]
        }
    }
}

/// A candidate tagged with another round than the active one changes
/// nothing and asks for nothing.
pub proof fn lemma_stale_candidate_is_ignored<S, C>(
    coordinator: ReceiveCoordinatorView<C>,
    from: String,
    sid: u64,
    candidate: C,
)
    requires
        coordinator.session matches Some(session) && session.is_stale(sid),
    ensures
        coordinator.after_message(ServerMessage::<S, C>::Candidate { from, sid, candidate })
            == coordinator,
        coordinator.message_actions(ServerMessage::<S, C>::Candidate { from, sid, candidate })
            == Ok::<Seq<ReceiveAction<S, C>>, SessionError>(Seq::empty()),
{
}

/// The receiving side's coordinator.
pub struct ReceiveCoordinator<C> {
    session: Option<ReceiverState<C>>,
    stay_open: bool,
}

impl<C> View for ReceiveCoordinator<C> {
    type V = ReceiveCoordinatorView<C>;

    closed spec fn view(&self) -> ReceiveCoordinatorView<C> {
        ReceiveCoordinatorView {
            session: match self.session {
                Some(session) => Some(session@),
                None => None,
            },
            stay_open: self.stay_open,
        }
    }
}

impl<C> ReceiveCoordinator<C> {
    /// A coordinator that waits for negotiation to start.
    pub fn new(stay_open: bool) -> (coordinator: Self)
        ensures
            coordinator@ == (ReceiveCoordinatorView::<C> { session: None, stay_open }),
    {
        ReceiveCoordinator { session: None, stay_open }
    }

    /// The answering session, once negotiation was started.
    pub fn session(&self) -> (session: &Option<ReceiverState<C>>)
        ensures
            match *session {
                Some(s) => self@.session == Some(s@),
                None => self@.session is None,
            },
    {
        &self.session
    }

    /// Handles one message of the signaling service.
    ///
    /// A role other than the answering one ends the session. A start puts a
    /// new session in place. An offer is taken by the session; without one
    /// it ends the session in failure. A candidate goes to the session;
    /// without one it is dropped. Everything else asks for nothing.
    pub fn on_message<S>(&mut self, msg: ServerMessage<S, C>) -> (result: Result<
        Vec<ReceiveAction<S, C>>,
        SessionError,
    >)
        ensures
            final(self)@ == old(self)@.after_message(msg),
            match old(self)@.message_actions(msg) {
                Ok(actions) => (result matches Ok(list) && list@ == actions),
                Err(e) => result == Err::<Vec<ReceiveAction<S, C>>, SessionError>(e),
            },
    {
        let mut actions: Vec<ReceiveAction<S, C>> = Vec::new();
        match msg {
            ServerMessage::Role { role, cid } => {
                if !is_answerer_role(&role) {
                    return Err(SessionError::RoleMismatch);
                }
            },
            ServerMessage::Start { peer_id } => {
                self.session = Some(ReceiverState::new());
                actions.push(ReceiveAction::OpenPeer);
            },
            ServerMessage::Offer { from, sid, sdp } => {
                match &mut self.session {
                    Some(session) => {
                        let applied = session.handle_offer(from.clone(), sid);
                        actions = Self::offer_list(from, sid, sdp, applied);
                    },
                    None => {
                        return Err(SessionError::ReceiverNotInitialized);
                    },
                }
            },
            ServerMessage::Candidate { from, sid, candidate } => {
                match &mut self.session {
                    Some(session) => {
                        if let Some(candidate) = session.handle_receiver_candidate(sid, candidate) {
                            actions.push(ReceiveAction::AddIceCandidate { candidate });
                        }
                    },
                    None => {},
                }
            },
            _ => {},
        }
        Ok(actions)
    }

    /// Builds the actions that follow an offer.
    fn offer_list<S>(from: String, sid: u64, sdp: S, applied: Vec<C>) -> (actions: Vec<
        ReceiveAction<S, C>,
    >)
        ensures
            actions@ == offer_actions(from, sid, sdp, applied@),
    {
        let ghost all = applied@;
        let mut actions: Vec<ReceiveAction<S, C>> = Vec::new();
        actions.push(ReceiveAction::ApplyRemoteDescription { sdp });
        for candidate in it: applied
            invariant
                it.seq() == all,
                actions@ == offer_actions(from, sid, sdp, all.take(it.index() as int)).drop_last(),
        {
            actions.push(ReceiveAction::AddIceCandidate { candidate });
            proof {
                let n = it.index() as int;
                assert(all.take(n + 1) == all.take(n).push(candidate));
                assert(actions@ =~= offer_actions(from, sid, sdp, all.take(n + 1)).drop_last());
            }
        }
        proof {
            assert(all.take(all.len() as int) == all);
        }
        actions.push(ReceiveAction::CreateAnswer { to: from, sid });
        assert(actions@ =~= offer_actions(from, sid, sdp, all));
        actions
    }

    /// Handles one frame read from the signaling connection. Frames that
    /// hold no known message are skipped; the end of the connection ends the
    /// loop; a failed read ends the session.
    pub fn on_frame<S>(&mut self, frame: SignalFrame<S, C>) -> (step: LoopStep<
        ReceiveAction<S, C>,
    >)
        ensures
            final(self)@ == old(self)@.after_frame(frame),
            match old(self)@.frame_outcome(frame) {
                Ok(Some(actions)) => (step matches LoopStep::Continue(list) && list@ == actions),
                Ok(None) => step is Closed,
                Err(e) => (step matches LoopStep::Abort(err) && err == e),
            },
    {
        match frame {
            SignalFrame::Message(msg) => match self.on_message(msg) {
                Ok(actions) => LoopStep::Continue(actions),
                Err(e) => LoopStep::Abort(e),
            },
            SignalFrame::Malformed => LoopStep::Continue(Vec::new()),
            SignalFrame::NotText => LoopStep::Continue(Vec::new()),
            SignalFrame::Closed => LoopStep::Closed,
            SignalFrame::Failed => LoopStep::Abort(SessionError::Transport),
        }
    }

    /// The message that carries the local answer to `to` for round `sid`,
    /// when the networking layer produced a local description.
    pub fn answer_message<S>(to: String, sid: u64, local: Option<S>) -> (msg: Option<
        ClientMessage<S, C>,
    >)
        ensures
            msg == match local {
                Some(sdp) => Some(ClientMessage::<S, C>::Answer { to, sid, sdp }),
                None => None,
            },
    {
        match local {
            Some(sdp) => Some(ClientMessage::Answer { to, sid, sdp }),
            None => None,
        }
    }

    /// The message that carries a locally gathered candidate to the peer:
    /// there is one when gathering produced a candidate and an offer was
    /// taken, under whose round it is sent.
    pub fn on_local_candidate<S>(&self, candidate: Option<C>) -> (msg: Option<ClientMessage<S, C>>)
        ensures
            msg == match (candidate, self@.local_candidate_target()) {
                (Some(c), Some((to, sid))) => Some(
                    ClientMessage::<S, C>::Candidate { to, sid, candidate: c },
                ),
                _ => None,
            },
    {
        match &self.session {
            Some(session) => {
                let target = session.local_candidate_target(&candidate);
                match (candidate, target) {
                    (Some(c), Some((to, sid))) => Some(
                        ClientMessage::Candidate { to, sid, candidate: c },
                    ),
                    _ => None,
                }
            },
            None => None,
        }
    }

    /// What follows the completion of a received file: unless the session
    /// is to stay open, the connection is closed and the loop ends.
    pub fn on_transfer_complete<S>(&mut self) -> (actions: Vec<ReceiveAction<S, C>>)
        ensures
            final(self)@ == old(self)@.after_transfer_complete(),
            actions@ == old(self)@.complete_actions::<S>(),
    {
        let mut actions: Vec<ReceiveAction<S, C>> = Vec::new();
        if !self.stay_open {
            if self.session.is_some() {
                actions.push(ReceiveAction::ClosePeer);
            }
            self.session = None;
            actions.push(ReceiveAction::Finish);
        }
        actions
    }
}

} // verus!
