//! The offering side's per-peer negotiation state.
//!
//! A session issues offers tagged with an increasing round number (the sid)
//! and takes the answer and the candidates of the active round only: what
//! is tagged with another round is stale and changes nothing. Candidates of
//! the active round are held back until its remote description has been
//! applied.

use vstd::prelude::*;
use crate::candidates::{
    due, kept, lemma_flush_leaves_none_due, lemma_flush_of_buffered, tagged, CandidateQueue,
    PendingCandidate,
};

verus! {

/// Mathematical model of one offering session.
pub struct OffererPeerView<C> {
    /// The highest round number issued so far (0: none).
    pub signal_sid: u64,
    /// The round under negotiation or negotiated last.
    pub active_sid: Option<u64>,
    /// Candidates waiting for a remote description, oldest first.
    pub pending: Seq<PendingCandidate<C>>,
    /// Whether the remote description of the active round has been applied.
    pub remote_desc_set: bool,
    /// Whether a transfer was ever started on this session.
    pub sending: bool,
}

impl<C> OffererPeerView<C> {
    /// What every reachable session satisfies: the active round is the one
    /// issued last, and a remote description belongs to an active round.
    pub open spec fn wf(self) -> bool {
        &&& self.remote_desc_set ==> self.active_sid is Some
        &&& match self.active_sid {
            Some(sid) => sid == self.signal_sid && sid >= 1,
            None => self.signal_sid == 0,
        }
    }

    /// A session that has not offered anything yet.
    pub open spec fn fresh() -> Self {
        OffererPeerView {
            signal_sid: 0,
            active_sid: None,
            pending: Seq::empty(),
            remote_desc_set: false,
            sending: false,
        }
    }

    /// An offer was sent and its answer has not been applied yet.
    pub open spec fn offer_outstanding(self) -> bool {
        self.active_sid is Some && !self.remote_desc_set
    }

    /// Whether a new round may be opened now.
    pub open spec fn may_offer(self) -> bool {
        !self.offer_outstanding() && self.signal_sid < u64::MAX
    }

    /// The session after opening the next round.
    pub open spec fn offered(self) -> Self {
        OffererPeerView {
            signal_sid: (self.signal_sid + 1) as u64,
            active_sid: Some((self.signal_sid + 1) as u64),
            remote_desc_set: false,
            ..self
        }
    }

    /// The session after applying the answer of round `sid` and handing out
    /// the candidates that waited for it.
    pub open spec fn answered(self, sid: u64) -> Self {
        OffererPeerView { remote_desc_set: true, pending: kept(self.pending, sid), ..self }
    }

    /// Whether a candidate of round `sid` can be applied on arrival.
    pub open spec fn applies_now(self, sid: u64) -> bool {
        self.remote_desc_set && self.active_sid == Some(sid)
    }

    /// Whether a candidate of round `sid` is stale: another round is active.
    pub open spec fn is_stale(self, sid: u64) -> bool {
        self.active_sid matches Some(active) && active != sid
    }

    /// The session after the arrival of a candidate of round `sid`. A stale
    /// one is dropped and one that can be applied at once is handed on:
    /// neither changes the session. Any other is buffered: there is no
    /// active round yet, or the description of its round is outstanding.
    pub open spec fn after_candidate(self, sid: u64, candidate: C) -> Self {
        if self.applies_now(sid) || self.is_stale(sid) {
            self
        } else {
            OffererPeerView { pending: self.pending.push(PendingCandidate { sid, candidate }), ..self }
        }
    }

    /// The session after the arrival of `candidates`, all of round `sid`,
    /// one after the other.
    pub open spec fn after_candidates(self, sid: u64, candidates: Seq<C>) -> Self
        decreases candidates.len(),
    {
        if candidates.len() == 0 {
            self
        } else {
            self.after_candidates(sid, candidates.drop_last()).after_candidate(
                sid,
                candidates.last(),
            )
        }
    }

    /// Whether the opening of the channel starts a transfer.
    pub open spec fn starts_transfer(self) -> bool {
        !self.sending
    }

    /// The session after the opening of the channel.
    pub open spec fn claimed(self) -> Self {
        OffererPeerView { sending: true, ..self }
    }
}

/// A candidate tagged with another round than the active one changes
/// nothing, and is not applied.
pub proof fn lemma_stale_candidate_changes_nothing<C>(
    session: OffererPeerView<C>,
    sid: u64,
    candidate: C,
)
    requires
        session.active_sid matches Some(active) && active != sid,
    ensures
        !session.applies_now(sid),
        session.after_candidate(sid, candidate) == session,
{
}

/// Candidates that arrive while the answer of their round is outstanding
/// are all buffered; the answer hands them out behind those that waited
/// before them, in arrival order; after it none of them is due again, and
/// a later candidate of the round is applied on arrival.
pub proof fn lemma_buffered_candidates_applied_once<C>(
    session: OffererPeerView<C>,
    sid: u64,
    candidates: Seq<C>,
)
    requires
        session.active_sid == Some(sid),
        !session.remote_desc_set,
    ensures
        ({
            let buffered = session.after_candidates(sid, candidates);
            &&& buffered == (OffererPeerView {
                pending: session.pending + tagged(sid, candidates),
                ..session
            })
            &&& due(buffered.pending, sid) == due(session.pending, sid) + candidates
            &&& due(buffered.answered(sid).pending, sid) == Seq::<C>::empty()
            &&& buffered.answered(sid).applies_now(sid)
        }),
    decreases candidates.len(),
{
    if candidates.len() == 0 {
        assert(session.pending + tagged(sid, candidates) =~= session.pending);
    } else {
        let shorter = candidates.drop_last();
        lemma_buffered_candidates_applied_once(session, sid, shorter);
        assert((session.pending + tagged(sid, shorter)).push(
            PendingCandidate { sid, candidate: candidates.last() },
        ) =~= session.pending + tagged(sid, candidates));
    }
    lemma_flush_of_buffered(session.pending, sid, candidates);
    lemma_flush_leaves_none_due(session.pending + tagged(sid, candidates), sid);
}

/// However often the channel opens, a transfer starts at most once: after
/// one opening no further opening starts one.
pub proof fn lemma_channel_open_starts_once<C>(session: OffererPeerView<C>)
    ensures
        !session.claimed().starts_transfer(),
        !session.claimed().claimed().starts_transfer(),
        session.claimed().claimed() == session.claimed(),
{
}

/// One offering session.
pub struct OffererPeerState<C> {
    signal_sid: u64,
    active_sid: Option<u64>,
    pending_candidates: CandidateQueue<C>,
    remote_desc_set: bool,
    sending: bool,
}

impl<C> View for OffererPeerState<C> {
    type V = OffererPeerView<C>;

    closed spec fn view(&self) -> OffererPeerView<C> {
        OffererPeerView {
            signal_sid: self.signal_sid,
            active_sid: self.active_sid,
            pending: self.pending_candidates@,
            remote_desc_set: self.remote_desc_set,
            sending: self.sending,
        }
    }
}

impl<C> OffererPeerState<C> {
    /// A session for a newly discovered peer.
    pub fn new() -> (state: Self)
        ensures
            state@ == OffererPeerView::<C>::fresh(),
            state@.wf(),
    {
        OffererPeerState {
            signal_sid: 0,
            active_sid: None,
            pending_candidates: CandidateQueue::new(),
            remote_desc_set: false,
            sending: false,
        }
    }

    /// The active round, if any.
    pub fn active_sid(&self) -> (sid: Option<u64>)
        ensures
            sid == self@.active_sid,
    {
        self.active_sid
    }

    /// Whether the remote description of the active round has been applied.
    pub fn remote_desc_set(&self) -> (set: bool)
        ensures
            set == self@.remote_desc_set,
    {
        self.remote_desc_set
    }

    /// Whether a transfer was ever started on this session.
    pub fn sending(&self) -> (sending: bool)
        ensures
            sending == self@.sending,
    {
        self.sending
    }

    /// Number of candidates held back.
    pub fn pending_len(&self) -> (n: usize)
        ensures
            n == self@.pending.len(),
    {
        self.pending_candidates.len()
    }

    /// Opens the next negotiation round and returns its sid, under which the
    /// local offer is to be sent. While an offer is outstanding, or when the
    /// round counter is exhausted, nothing changes and `None` is returned.
    pub fn send_offer(&mut self) -> (issued: Option<u64>)
        ensures
            old(self)@.may_offer() ==> final(self)@ == old(self)@.offered() && issued == Some(
                final(self)@.signal_sid,
            ),
            !old(self)@.may_offer() ==> final(self)@ == old(self)@ && issued is None,
            old(self)@.wf() ==> final(self)@.wf(),
            final(self)@.signal_sid >= old(self)@.signal_sid,
            issued matches Some(sid) ==> sid > old(self)@.signal_sid,
    {
        if (self.active_sid.is_some() && !self.remote_desc_set) || self.signal_sid == u64::MAX {
            return None;
        }
        let sid: u64 = self.signal_sid + 1;
        self.signal_sid = sid;
        self.active_sid = Some(sid);
        self.remote_desc_set = false;
        Some(sid)
    }

    /// Decides on an answer tagged `sid`. One for another round than the
    /// active one is stale: nothing changes and `None` is returned. Otherwise
    /// the remote description counts as applied, and the candidates that
    /// waited for this round are returned in arrival order, to be applied
    /// right after it; the others stay buffered.
    pub fn handle_answer(&mut self, sid: u64) -> (outcome: Option<Vec<C>>)
        ensures
            old(self)@.active_sid != Some(sid) ==> final(self)@ == old(self)@ && outcome is None,
            old(self)@.active_sid == Some(sid) ==> final(self)@ == old(self)@.answered(sid),
            old(self)@.active_sid == Some(sid) ==> (outcome matches Some(applied) && applied@ == due(
                old(self)@.pending,
                sid,
            )),
            old(self)@.wf() ==> final(self)@.wf(),
    {
        if self.active_sid != Some(sid) {
            return None;
        }
        self.remote_desc_set = true;
        let applied = self.pending_candidates.flush(sid);
        Some(applied)
    }

    /// Takes in a remote candidate tagged `sid`. One tagged with another
    /// round than the active one is stale: it is dropped and nothing
    /// changes. One of the active round is handed back for immediate
    /// application when the remote description of that round is applied,
    /// and is buffered behind the others while it is outstanding. Without
    /// an active round every candidate is buffered.
    pub fn handle_offer_candidate(&mut self, sid: u64, candidate: C) -> (now: Option<C>)
        ensures
            final(self)@ == old(self)@.after_candidate(sid, candidate),
            now == if old(self)@.applies_now(sid) {
                Some(candidate)
            } else {
                None
            },
            old(self)@.active_sid matches Some(active) && active != sid ==> final(self)@ == old(
                self,
            )@ && now is None,
            old(self)@.wf() ==> final(self)@.wf(),
    {
        match self.active_sid {
            Some(active) => {
                if active != sid {
                    None
                } else if self.remote_desc_set {
                    Some(candidate)
                } else {
                    self.pending_candidates.push(sid, candidate);
                    None
                }
            },
            None => {
                self.pending_candidates.push(sid, candidate);
                None
            },
        }
    }

    /// Hands out the buffered candidates of the active round, in arrival
    /// order, and keeps the others. Without an active round nothing happens.
    pub fn flush_offer_candidates(&mut self) -> (applied: Vec<C>)
        ensures
            match old(self)@.active_sid {
                Some(sid) => applied@ == due(old(self)@.pending, sid) && final(self)@ == (
                OffererPeerView { pending: kept(old(self)@.pending, sid), ..old(self)@ }),
                None => applied@ == Seq::<C>::empty() && final(self)@ == old(self)@,
            },
            old(self)@.wf() ==> final(self)@.wf(),
    {
        match self.active_sid {
            Some(sid) => self.pending_candidates.flush(sid),
            None => Vec::new(),
        }
    }

    /// The round under which a locally gathered candidate is to be sent to
    /// the peer, or `None` when there is no candidate or no active round.
    pub fn local_candidate_sid(&self, candidate: &Option<C>) -> (sid: Option<u64>)
        ensures
            sid == if candidate is Some {
                self@.active_sid
            } else {
                None
            },
    {
        match candidate {
            Some(_) => self.active_sid,
            None => None,
        }
    }

    /// Claims the session for a transfer when its channel opens. Returns
    /// `true` the first time only; afterwards the session stays claimed.
    pub fn begin_sending(&mut self) -> (start: bool)
        ensures
            start == old(self)@.starts_transfer(),
            final(self)@ == old(self)@.claimed(),
            old(self)@.wf() ==> final(self)@.wf(),
    {
        let start = !self.sending;
        self.sending = true;
        start
    }
}

} // verus!
