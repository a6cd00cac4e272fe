//! The messages exchanged with the signaling service and over the data
//! channel, and the reasons for which a session ends in failure.
//!
//! Session descriptions (`S`) and candidates (`C`) are carried through
//! untouched; their contents belong to the networking layer.

use vstd::prelude::*;
use vstd::string::*;

verus! {

/// What the signaling service sends to a client.
#[allow(inconsistent_fields)]
#[derive(Clone, Debug, PartialEq, Eq)]
pub enum ServerMessage<S, C> {
    /// The role the service assigned to this client.
    Role { role: String, cid: String },
    /// How many clients are in the room.
    Peers { count: u32 },
    /// The client has to wait, possibly at a known place in the queue.
    Wait { position: Option<u32> },
    /// Negotiation may start, on the offering side with the named peer.
    Start { peer_id: Option<String> },
    /// A peer has gone.
    PeerLeft { peer_id: String },
    /// A session offer relayed from a peer.
    Offer { from: String, sid: u64, sdp: S },
    /// A session answer relayed from a peer.
    Answer { from: String, sid: u64, sdp: S },
    /// A network-path candidate relayed from a peer.
    Candidate { from: String, sid: u64, candidate: C },
}

/// What a client sends to the signaling service.
#[derive(Clone, Debug, PartialEq, Eq)]
pub enum ClientMessage<S, C> {
    /// A session offer for a peer.
    Offer { to: String, sid: u64, sdp: S },
    /// A session answer for a peer.
    Answer { to: String, sid: u64, sdp: S },
    /// A locally gathered network-path candidate for a peer.
    Candidate { to: String, sid: u64, candidate: C },
    /// The transfer to the named peer has finished.
    TransferDone { peer_id: String },
}

/// Control messages carried as text frames on the data channel.
#[derive(Clone, Debug, PartialEq, Eq)]
pub enum DataMessage {
    /// Describes the file that follows; sent once, before any data frame.
    Meta { name: String, size: u64, mime: String, encrypted: bool },
    /// Ends the file; sent once, after the last data frame.
    Done,
}

/// Mathematical model of a control message.
pub enum ControlView {
    Meta { name: Seq<char>, size: u64, mime: Seq<char>, encrypted: bool },
    Done,
}

impl View for DataMessage {
    type V = ControlView;

    open spec fn view(&self) -> ControlView {
        match *self {
            DataMessage::Meta { name, size, mime, encrypted } => ControlView::Meta {
                name: name@,
                size,
                mime: mime@,
                encrypted,
            },
            DataMessage::Done => ControlView::Done,
        }
    }
}

/// One frame of the data channel.
#[derive(Clone, Debug, PartialEq, Eq)]
pub enum ChannelFrame {
    /// A text frame that holds a control message.
    Control(DataMessage),
    /// A binary frame: one chunk of the file, plain or encrypted.
    Data(Vec<u8>),
    /// A text frame that holds no known control message.
    Unreadable,
}

/// Mathematical model of a data-channel frame.
pub enum WireFrame {
    Control(ControlView),
    Data(Seq<u8>),
    Unreadable,
}

impl View for ChannelFrame {
    type V = WireFrame;

    open spec fn view(&self) -> WireFrame {
        match *self {
            ChannelFrame::Control(msg) => WireFrame::Control(msg@),
            ChannelFrame::Data(bytes) => WireFrame::Data(bytes@),
            ChannelFrame::Unreadable => WireFrame::Unreadable,
        }
    }
}

/// One frame read from the signaling connection.
#[derive(Clone, Debug, PartialEq, Eq)]
pub enum SignalFrame<S, C> {
    /// A text frame that holds a message.
    Message(ServerMessage<S, C>),
    /// A text frame that holds no known message.
    Malformed,
    /// A frame that is not text.
    NotText,
    /// The connection was closed.
    Closed,
    /// Reading from the connection failed.
    Failed,
}

/// What the dispatch loop does after one frame.
#[derive(Clone, Debug, PartialEq, Eq)]
pub enum LoopStep<A> {
    /// Perform the actions in order, then read the next frame.
    Continue(Vec<A>),
    /// The connection is closed: write out what is queued, then end.
    Closed,
    /// End the session with a failure.
    Abort(SessionError),
}

/// Why a session cannot go on.
#[derive(Clone, Copy, Debug, PartialEq, Eq, Structural)]
pub enum SessionError {
    /// The service assigned another role than the one this side plays.
    RoleMismatch,
    /// An offer arrived before negotiation was started.
    ReceiverNotInitialized,
    /// The signaling connection failed.
    Transport,
}

/// The role name the service gives to the sending side.
pub open spec fn offerer_role() -> Seq<char> {
    "offerer"@
}

/// The role name the service gives to the receiving side.
pub open spec fn answerer_role() -> Seq<char> {
    "answerer"@
}

/// Whether `role` names the sending side.
pub fn is_offerer_role(role: &String) -> (yes: bool)
    ensures
        yes == (role@ == offerer_role()),
{
    let expected = String::from_str("offerer");
    *role == expected
}

/// Whether `role` names the receiving side.
pub fn is_answerer_role(role: &String) -> (yes: bool)
    ensures
        yes == (role@ == answerer_role()),
{
    let expected = String::from_str("answerer");
    *role == expected
}

} // verus!
