//! The sending end of the transfer protocol: one file descriptor, the file
//! in chunks of bounded size, one end-of-file message, and a bounded wait
//! for the channel to drain.

use vstd::prelude::*;
use vstd::slice::slice_to_vec;
use crate::crypto::{
    encrypt_frame, is_frame_of, CryptoError, FrameCipher, AES_NONCE_LEN, AES_TAG_LEN,
    MAX_FRAME_SIZE, MAX_PLAINTEXT_LEN,
};
use crate::file_info::FileInfo;
use crate::messages::{ChannelFrame, ControlView, DataMessage, WireFrame};

verus! {

/// How often the channel's buffer is looked at, at most, after the last frame.
pub const DRAIN_POLL_LIMIT: u32 = 500;

/// The pause between two looks at the channel's buffer, in milliseconds.
pub const DRAIN_POLL_MILLIS: u64 = 10;

/// Why a transfer cannot go on.
#[derive(Clone, Copy, Debug, PartialEq, Eq, Structural)]
pub enum TransferError {
    /// A chunk is longer than a frame can carry.
    ChunkTooLong,
    /// A chunk could not be encrypted.
    Crypto(CryptoError),
}

/// The most that one chunk may hold, so that its frame stays within
/// `MAX_FRAME_SIZE`: an encrypted frame also carries a nonce and a tag.
pub open spec fn chunk_size_for(encrypted: bool) -> usize {
    if encrypted {
        (MAX_FRAME_SIZE - AES_NONCE_LEN - AES_TAG_LEN) as usize
    } else {
        MAX_FRAME_SIZE
    }
}

/// The most that one chunk may hold.
pub fn chunk_size(encrypted: bool) -> (size: usize)
    ensures
        size == chunk_size_for(encrypted),
        0 < size <= MAX_FRAME_SIZE,
{
    if encrypted {
        MAX_FRAME_SIZE - AES_NONCE_LEN - AES_TAG_LEN
    } else {
        MAX_FRAME_SIZE
    }
}

/// Whether `frame` carries `chunk`: as it is without a key, encrypted under
/// the key otherwise.
pub open spec fn carries(key: Option<Seq<u8>>, chunk: Seq<u8>, frame: Seq<u8>) -> bool {
    match key {
        Some(k) => is_frame_of(k, chunk, frame),
        None => frame == chunk,
    }
}

/// The frame for one chunk: encrypted under a fresh nonce where there is a
/// cipher, the chunk itself otherwise. Without a cipher this cannot fail;
/// with one it fails where the random source does, or where the chunk is
/// too long to be encrypted.
pub fn data_frame(crypto: &Option<FrameCipher>, chunk: &[u8]) -> (result: Result<
    Vec<u8>,
    CryptoError,
>)
    ensures
        match result {
            Ok(frame) => carries(
                match *crypto {
                    Some(cipher) => Some(cipher@),
                    None => None,
                },
                chunk@,
                frame@,
            ),
            Err(e) => *crypto is Some && (e == CryptoError::RandomSource || (e
                == CryptoError::PlaintextTooLong && chunk@.len() > MAX_PLAINTEXT_LEN)),
        },
{
    match crypto {
        Some(cipher) => encrypt_frame(cipher, chunk),
        None => Ok(slice_to_vec(chunk)),
    }
}

/// Where a transfer stands.
#[derive(Clone, Copy, Debug, PartialEq, Eq, Structural)]
pub enum SendPhase {
    /// Nothing was sent yet.
    Ready,
    /// The descriptor is out; chunks are read and sent.
    Reading,
    /// The end-of-file message is out; the channel's buffer was looked at
    /// `polls` times and was not empty.
    Draining { polls: u32 },
    /// The transfer is over.
    Finished,
}

/// What the caller does next.
#[derive(Clone, Copy, Debug, PartialEq, Eq, Structural)]
pub enum SendNext {
    /// Nothing: the event did not belong to this phase.
    Idle,
    /// Read the next chunk of at most `max` bytes, a shorter one only at
    /// the end of the file, and hand it in.
    Read { max: usize },
    /// Look at the channel's state and buffer, and hand in what they say.
    Poll,
    /// Pause, then look again.
    PauseThenPoll { millis: u64 },
    /// Pause, then consider the transfer complete.
    PauseThenComplete { millis: u64 },
    /// The transfer is complete.
    Complete,
}

/// One step of a transfer: the frame to send, if any, and what to do then.
#[derive(Clone, Debug, PartialEq, Eq)]
pub struct SendStep {
    pub emit: Option<ChannelFrame>,
    pub next: SendNext,
}

/// Mathematical model of a step.
pub struct SendStepView {
    pub emit: Option<WireFrame>,
    pub next: SendNext,
}

impl View for SendStep {
    type V = SendStepView;

    open spec fn view(&self) -> SendStepView {
        SendStepView {
            emit: match self.emit {
                Some(frame) => Some(frame@),
                None => None,
            },
            next: self.next,
        }
    }
}

/// The step of an event that does not belong to the phase.
pub open spec fn idle_step() -> SendStepView {
    SendStepView { emit: None, next: SendNext::Idle }
}

/// Mathematical model of the sending end.
pub struct SenderView {
    pub phase: SendPhase,
    /// The room key, if the transfer is encrypted.
    pub key: Option<Seq<u8>>,
}

impl SenderView {
    /// Whether the transfer is encrypted.
    pub open spec fn encrypted(self) -> bool {
        self.key is Some
    }

    /// The descriptor of the file `name` of `size` bytes and type `mime`.
    pub open spec fn descriptor(self, name: Seq<char>, size: u64, mime: Seq<char>) -> WireFrame {
        WireFrame::Control(ControlView::Meta { name, size, mime, encrypted: self.encrypted() })
    }

    /// The step that starts the transfer.
    pub open spec fn begin_step(self, name: Seq<char>, size: u64, mime: Seq<char>) -> SendStepView {
        if self.phase == SendPhase::Ready {
            SendStepView {
                emit: Some(self.descriptor(name, size, mime)),
                next: SendNext::Read { max: chunk_size_for(self.encrypted()) },
            }
        } else {
            idle_step()
        }
    }

    /// The sending end after the start.
    pub open spec fn after_begin(self) -> Self {
        if self.phase == SendPhase::Ready {
            SenderView { phase: SendPhase::Reading, ..self }
        } else {
            self
        }
    }

    /// Whether a chunk can be sent.
    pub open spec fn takes_chunk(self, chunk: Seq<u8>) -> bool {
        chunk.len() <= chunk_size_for(self.encrypted())
    }

    /// The step that sends `frame` for a chunk that was read.
    pub open spec fn chunk_step(self, frame: Seq<u8>) -> SendStepView {
        SendStepView {
            emit: Some(WireFrame::Data(frame)),
            next: SendNext::Read { max: chunk_size_for(self.encrypted()) },
        }
    }

    /// The step that follows the end of the file.
    pub open spec fn end_step(self) -> SendStepView {
        SendStepView { emit: Some(WireFrame::Control(ControlView::Done)), next: SendNext::Poll }
    }

    /// The sending end after the end of the file.
    pub open spec fn after_end(self) -> Self {
        SenderView { phase: SendPhase::Draining { polls: 0 }, ..self }
    }

    /// The sending end after a transfer that cannot go on.
    pub open spec fn failed(self) -> Self {
        SenderView { phase: SendPhase::Finished, ..self }
    }

    /// The step that follows a look at the channel, which is `open` or not
    /// and holds `buffered` bytes.
    pub open spec fn drain_step(self, open: bool, buffered: nat) -> SendStepView {
        match self.phase {
            SendPhase::Draining { polls } => SendStepView {
                emit: None,
                next: if !open || buffered == 0 {
                    SendNext::Complete
                } else if polls + 1 < DRAIN_POLL_LIMIT {
                    SendNext::PauseThenPoll { millis: DRAIN_POLL_MILLIS }
                } else {
                    SendNext::PauseThenComplete { millis: DRAIN_POLL_MILLIS }
                },
            },
            _ => idle_step(),
        }
    }

    /// The sending end after a look at the channel.
    pub open spec fn after_drain(self, open: bool, buffered: nat) -> Self {
        match self.phase {
            SendPhase::Draining { polls } => if open && buffered != 0 && polls + 1
                < DRAIN_POLL_LIMIT {
                SenderView { phase: SendPhase::Draining { polls: (polls + 1) as u32 }, ..self }
            } else {
                SenderView { phase: SendPhase::Finished, ..self }
            },
            _ => self,
        }
    }
}

/// The sending end of the transfer protocol, for one file.
pub struct FileSender {
    phase: SendPhase,
    crypto: Option<FrameCipher>,
}

impl View for FileSender {
    type V = SenderView;

    closed spec fn view(&self) -> SenderView {
        SenderView {
            phase: self.phase,
            key: match self.crypto {
                Some(cipher) => Some(cipher@),
                None => None,
            },
        }
    }
}

impl FileSender {
    /// A sending end that encrypts where there is a cipher.
    pub fn new(crypto: Option<FrameCipher>) -> (sender: Self)
        ensures
            sender@ == (SenderView {
                phase: SendPhase::Ready,
                key: match crypto {
                    Some(cipher) => Some(cipher@),
                    None => None,
                },
            }),
    {
        FileSender { phase: SendPhase::Ready, crypto }
    }

    /// Where the transfer stands.
    pub fn phase(&self) -> (phase: SendPhase)
        ensures
            phase == self@.phase,
    {
        self.phase
    }

    /// The step of an event that does not belong to the phase.
    fn idle() -> (step: SendStep)
        ensures
            step@ == idle_step(),
    {
        SendStep { emit: None, next: SendNext::Idle }
    }

    /// Starts the transfer: the file's descriptor goes out, and the first
    /// chunk is to be read.
    pub fn begin(&mut self, info: &FileInfo) -> (step: SendStep)
        ensures
            step@ == old(self)@.begin_step(info.name@, info.size, info.mime@),
            final(self)@ == old(self)@.after_begin(),
    {
        match self.phase {
            SendPhase::Ready => {
                let encrypted = self.crypto.is_some();
                self.phase = SendPhase::Reading;
                SendStep {
                    emit: Some(
                        ChannelFrame::Control(
                            DataMessage::Meta {
                                name: info.name.clone(),
                                size: info.size,
                                mime: info.mime.clone(),
                                encrypted,
                            },
                        ),
                    ),
                    next: SendNext::Read { max: chunk_size(encrypted) },
                }
            },
            _ => Self::idle(),
        }
    }

    /// Takes the chunk that was read. An empty one is the end of the file:
    /// the end-of-file message goes out and the wait for the channel to
    /// drain begins. Any other goes out as one frame, encrypted where the
    /// transfer is, and the next chunk is to be read. A chunk that is too
    /// long for a frame, or that cannot be encrypted, ends the transfer.
    pub fn on_chunk(&mut self, chunk: &[u8]) -> (result: Result<SendStep, TransferError>)
        ensures
            old(self)@.phase != SendPhase::Reading ==> final(self)@ == old(self)@ && (
            result matches Ok(step) && step@ == idle_step()),
            old(self)@.phase == SendPhase::Reading && chunk@.len() == 0 ==> final(self)@ == old(
                self,
            )@.after_end() && (result matches Ok(step) && step@ == old(self)@.end_step()),
            old(self)@.phase == SendPhase::Reading && chunk@.len() > 0 ==> match result {
                Ok(step) => final(self)@ == old(self)@ && old(self)@.takes_chunk(chunk@) && (
                step.emit matches Some(ChannelFrame::Data(frame)) && carries(
                    old(self)@.key,
                    chunk@,
                    frame@,
                ) && frame@.len() <= MAX_FRAME_SIZE && step@ == old(self)@.chunk_step(frame@)),
                Err(e) => final(self)@ == old(self)@.failed() && if old(self)@.takes_chunk(
                    chunk@,
                ) {
                    e == TransferError::Crypto(CryptoError::RandomSource) && old(
                        self,
                    )@.encrypted()
                } else {
                    e == TransferError::ChunkTooLong
                },
            },
    {
        match self.phase {
            SendPhase::Reading => {
                if chunk.len() == 0 {
                    self.phase = SendPhase::Draining { polls: 0 };
                    return Ok(
                        SendStep {
                            emit: Some(ChannelFrame::Control(DataMessage::Done)),
                            next: SendNext::Poll,
                        },
                    );
                }
                if chunk.len() > chunk_size(self.crypto.is_some()) {
                    self.phase = SendPhase::Finished;
                    return Err(TransferError::ChunkTooLong);
                }
                let framed = data_frame(&self.crypto, chunk);
                self.on_framed(framed)
            },
            _ => Ok(Self::idle()),
        }
    }

    /// Takes the frame that a chunk was made into. It goes out, and the next
    /// chunk is to be read; a chunk that could not be made into a frame ends
    /// the transfer.
    pub fn on_framed(&mut self, framed: Result<Vec<u8>, CryptoError>) -> (result: Result<
        SendStep,
        TransferError,
    >)
        ensures
            old(self)@.phase != SendPhase::Reading ==> final(self)@ == old(self)@ && (
            result matches Ok(step) && step@ == idle_step()),
            old(self)@.phase == SendPhase::Reading ==> match framed {
                Ok(frame) => final(self)@ == old(self)@ && (result matches Ok(step) && step@
                    == old(self)@.chunk_step(frame@) && step.emit == Some(
                    ChannelFrame::Data(frame),
                )),
                Err(e) => final(self)@ == old(self)@.failed() && result == Err::<
                    SendStep,
                    TransferError,
                >(TransferError::Crypto(e)),
            },
    {
        match self.phase {
            SendPhase::Reading => match framed {
                Ok(frame) => {
                    let max = chunk_size(self.crypto.is_some());
                    Ok(
                        SendStep {
                            emit: Some(ChannelFrame::Data(frame)),
                            next: SendNext::Read { max },
                        },
                    )
                },
                Err(e) => {
                    self.phase = SendPhase::Finished;
                    Err(TransferError::Crypto(e))
                },
            },
            _ => Ok(Self::idle()),
        }
    }

    /// Takes what a look at the channel said. The wait ends when the
    /// channel is no longer open, when its buffer is empty, or after
    /// `DRAIN_POLL_LIMIT` looks.
    pub fn on_drain(&mut self, open: bool, buffered: usize) -> (step: SendStep)
        ensures
            step@ == old(self)@.drain_step(open, buffered as nat),
            final(self)@ == old(self)@.after_drain(open, buffered as nat),
    {
        match self.phase {
            SendPhase::Draining { polls } => {
                if !open || buffered == 0 {
                    self.phase = SendPhase::Finished;
                    SendStep { emit: None, next: SendNext::Complete }
                } else if polls < DRAIN_POLL_LIMIT - 1 {
                    self.phase = SendPhase::Draining { polls: polls + 1 };
                    SendStep {
                        emit: None,
                        next: SendNext::PauseThenPoll { millis: DRAIN_POLL_MILLIS },
                    }
                } else {
                    self.phase = SendPhase::Finished;
                    SendStep {
                        emit: None,
                        next: SendNext::PauseThenComplete { millis: DRAIN_POLL_MILLIS },
                    }
                }
            },
            _ => Self::idle(),
        }
    }
}

} // verus!
