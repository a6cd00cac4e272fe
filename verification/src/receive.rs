//! The receiving end of the transfer protocol: it follows the control
//! messages and data frames of the channel and says what to create, what
//! to write and when a file is complete.

use vstd::prelude::*;
use vstd::string::*;
use crate::crypto::{decrypt_frame, frame_open, CryptoError, FrameCipher, AES_NONCE_LEN};
use crate::messages::{ChannelFrame, ControlView, DataMessage, WireFrame};
use crate::names::{sanitize_file_name, sanitized};

verus! {

/// What the caller has to do after an event of the receiving end.
#[derive(Clone, Debug, PartialEq, Eq)]
pub enum ReceiveStep {
    /// Nothing.
    Ignore,
    /// An encrypted file was announced and there is no key: it is not taken.
    Refuse,
    /// Create the output target `name` under the destination for a file of
    /// `size` bytes, encrypted or not, then report how that went.
    CreateFile { name: String, size: u64, mime: String, encrypted: bool },
    /// Append `payload` to the output target, then report how that went.
    Write { payload: Vec<u8> },
    /// The frame did not decrypt; the current file is given up.
    Reject { error: CryptoError },
    /// The file `file` is complete and its target is to be closed;
    /// `signal` says whether this completes the whole session.
    Finish { signal: bool, file: Option<String> },
}

/// Mathematical model of a step.
pub enum ReceiveStepView {
    Ignore,
    Refuse,
    CreateFile { name: Seq<char>, size: u64, mime: Seq<char>, encrypted: bool },
    Write { payload: Seq<u8> },
    Reject { error: CryptoError },
    Finish { signal: bool, file: Option<Seq<char>> },
}

impl View for ReceiveStep {
    type V = ReceiveStepView;

    open spec fn view(&self) -> ReceiveStepView {
        match *self {
            ReceiveStep::Ignore => ReceiveStepView::Ignore,
            ReceiveStep::Refuse => ReceiveStepView::Refuse,
            ReceiveStep::CreateFile { name, size, mime, encrypted } => ReceiveStepView::CreateFile {
                name: name@,
                size,
                mime: mime@,
                encrypted,
            },
            ReceiveStep::Write { payload } => ReceiveStepView::Write { payload: payload@ },
            ReceiveStep::Reject { error } => ReceiveStepView::Reject { error },
            ReceiveStep::Finish { signal, file } => ReceiveStepView::Finish {
                signal,
                file: match file {
                    Some(n) => Some(n@),
                    None => None,
                },
            },
        }
    }
}

/// The view of an opened data frame.
pub open spec fn bytes_of(opened: Result<Vec<u8>, CryptoError>) -> Result<Seq<u8>, CryptoError> {
    match opened {
        Ok(payload) => Ok(payload@),
        Err(error) => Err(error),
    }
}

/// Mathematical model of the receiving end.
pub struct ProgressView {
    /// The name of the open output target, if a file is being received.
    pub current_file: Option<Seq<char>>,
    /// The size that the file's descriptor declared.
    pub expected_size: u64,
    /// The bytes written to the target so far.
    pub received: u64,
    /// Whether the data frames of the file are encrypted.
    pub encrypted: bool,
    /// The room key, if there is one.
    pub key: Option<Seq<u8>>,
    /// Whether the first completed file still has to be signalled.
    pub success_pending: bool,
}

impl ProgressView {
    /// What every state of the receiving end satisfies: without an open
    /// file nothing is left of the last one, neither its encryption nor its
    /// counters.
    pub open spec fn wf(self) -> bool {
        self.current_file is None ==> !self.encrypted && self.expected_size == 0 && self.received
            == 0
    }

    /// The receiving end before any file.
    pub open spec fn idle(key: Option<Seq<u8>>, stay_open: bool) -> Self {
        ProgressView {
            current_file: None,
            expected_size: 0,
            received: 0,
            encrypted: false,
            key,
            success_pending: !stay_open,
        }
    }

    /// The receiving end after the current file was given up.
    pub open spec fn aborted(self) -> Self {
        ProgressView {
            current_file: None,
            expected_size: 0,
            received: 0,
            encrypted: false,
            ..self
        }
    }

    /// The receiving end after the current file was completed.
    pub open spec fn finished(self) -> Self {
        ProgressView { success_pending: false, ..self.aborted() }
    }

    /// The step that completes the current file.
    pub open spec fn finish_step(self) -> ReceiveStepView {
        ReceiveStepView::Finish { signal: self.success_pending, file: self.current_file }
    }

    /// Whether a file with the given encryption can be taken.
    pub open spec fn accepts(self, encrypted: bool) -> bool {
        !encrypted || self.key is Some
    }

    /// What a data frame is opened to: itself where the file is plain, what
    /// it decrypts to where the file is encrypted, and nothing where the
    /// file is encrypted and there is no key.
    pub open spec fn opened(self, bytes: Seq<u8>) -> Option<Result<Seq<u8>, CryptoError>> {
        if !self.encrypted {
            Some(Ok(bytes))
        } else {
            match self.key {
                None => None,
                Some(key) => Some(
                    match frame_open(key, bytes) {
                        Some(plain) => Ok(plain),
                        None => Err(
                            if bytes.len() < AES_NONCE_LEN {
                                CryptoError::FrameTooShort
                            } else {
                                CryptoError::Unauthentic
                            },
                        ),
                    },
                ),
            }
        }
    }

    /// The step that an opened data frame asks for: its payload is written
    /// where a file is open and dropped where none is; a frame that did not
    /// open is rejected.
    pub open spec fn payload_step(self, opened: Result<Seq<u8>, CryptoError>) -> ReceiveStepView {
        match opened {
            Ok(payload) => if self.current_file is Some {
                ReceiveStepView::Write { payload }
            } else {
                ReceiveStepView::Ignore
            },
            Err(error) => ReceiveStepView::Reject { error },
        }
    }

    /// The receiving end after an opened data frame: a frame that did not
    /// open gives up the current file.
    pub open spec fn after_payload(self, opened: Result<Seq<u8>, CryptoError>) -> Self {
        match opened {
            Ok(_) => self,
            Err(_) => self.aborted(),
        }
    }

    /// The step that a frame asks for.
    pub open spec fn frame_step(self, frame: WireFrame) -> ReceiveStepView {
        match frame {
            WireFrame::Control(ControlView::Meta { name, size, mime, encrypted }) => {
                if self.accepts(encrypted) {
                    ReceiveStepView::CreateFile { name: sanitized(name), size, mime, encrypted }
                } else {
                    ReceiveStepView::Refuse
                }
            },
            WireFrame::Control(ControlView::Done) => self.finish_step(),
            WireFrame::Data(bytes) => match self.opened(bytes) {
                Some(opened) => self.payload_step(opened),
                None => ReceiveStepView::Ignore,
            },
            WireFrame::Unreadable => ReceiveStepView::Ignore,
        }
    }

    /// The receiving end after a frame.
    pub open spec fn after_frame(self, frame: WireFrame) -> Self {
        match frame {
            WireFrame::Control(ControlView::Meta { name, size, mime, encrypted }) => self,
            WireFrame::Control(ControlView::Done) => self.finished(),
            WireFrame::Data(bytes) => match self.opened(bytes) {
                Some(opened) => self.after_payload(opened),
                None => self,
            },
            WireFrame::Unreadable => self,
        }
    }

    /// The receiving end after the output target `name` was created for a
    /// file of `size` bytes, encrypted or not.
    pub open spec fn after_file_created(self, name: Seq<char>, size: u64, encrypted: bool) -> Self {
        ProgressView {
            current_file: Some(name),
            expected_size: size,
            received: 0,
            encrypted,
            ..self
        }
    }

    /// The count of received bytes after `len` more.
    pub open spec fn counted(self, len: nat) -> u64 {
        if self.received + len > u64::MAX {
            u64::MAX
        } else {
            (self.received + len) as u64
        }
    }

    /// Whether `len` more bytes complete the file by its declared size.
    pub open spec fn completes(self, len: nat) -> bool {
        self.current_file is Some && self.expected_size > 0 && self.counted(len)
            >= self.expected_size
    }

    /// The step that follows the writing of `len` bytes.
    pub open spec fn written_step(self, len: nat) -> ReceiveStepView {
        if self.completes(len) {
            self.finish_step()
        } else {
            ReceiveStepView::Ignore
        }
    }

    /// The receiving end after `len` bytes were written.
    pub open spec fn after_written(self, len: nat) -> Self {
        if self.current_file is None {
            self
        } else if self.completes(len) {
            self.finished()
        } else {
            ProgressView { received: self.counted(len), ..self }
        }
    }
}

/// While no file is open, a data frame changes nothing and asks for
/// nothing.
pub proof fn lemma_data_without_file_is_dropped(progress: ProgressView, bytes: Seq<u8>)
    requires
        progress.wf(),
        progress.current_file is None,
    ensures
        progress.frame_step(WireFrame::Data(bytes)) == ReceiveStepView::Ignore,
        progress.after_frame(WireFrame::Data(bytes)) == progress,
{
}

/// The receiving end of the transfer protocol.
pub struct ReceiveProgress {
    current_file: Option<String>,
    expected_size: u64,
    received: u64,
    encrypted: bool,
    crypto: Option<FrameCipher>,
    success_pending: bool,
}

impl View for ReceiveProgress {
    type V = ProgressView;

    closed spec fn view(&self) -> ProgressView {
        ProgressView {
            current_file: match self.current_file {
                Some(name) => Some(name@),
                None => None,
            },
            expected_size: self.expected_size,
            received: self.received,
            encrypted: self.encrypted,
            key: match self.crypto {
                Some(cipher) => Some(cipher@),
                None => None,
            },
            success_pending: self.success_pending,
        }
    }
}

impl ReceiveProgress {
    /// A receiving end with the room's cipher, if the room has a key.
    /// Unless the session is to stay open, the first completed file will
    /// be signalled as the completion of the session.
    pub fn new(crypto: Option<FrameCipher>, stay_open: bool) -> (progress: Self)
        ensures
            progress@ == ProgressView::idle(
                match crypto {
                    Some(cipher) => Some(cipher@),
                    None => None,
                },
                stay_open,
            ),
            progress@.wf(),
    {
        ReceiveProgress {
            current_file: None,
            expected_size: 0,
            received: 0,
            encrypted: false,
            crypto,
            success_pending: !stay_open,
        }
    }

    /// The bytes written to the current target so far.
    pub fn received(&self) -> (n: u64)
        ensures
            n == self@.received,
    {
        self.received
    }

    /// The size that the current file's descriptor declared.
    pub fn expected_size(&self) -> (n: u64)
        ensures
            n == self@.expected_size,
    {
        self.expected_size
    }

    /// Whether a file is being received.
    pub fn is_receiving(&self) -> (yes: bool)
        ensures
            yes == self@.current_file is Some,
    {
        self.current_file.is_some()
    }

    /// Gives up the current file.
    fn abort(&mut self)
        ensures
            final(self)@ == old(self)@.aborted(),
    {
        self.current_file = None;
        self.expected_size = 0;
        self.received = 0;
        self.encrypted = false;
    }

    /// Completes the current file.
    fn finish(&mut self) -> (step: ReceiveStep)
        ensures
            final(self)@ == old(self)@.finished(),
            step@ == old(self)@.finish_step(),
    {
        let signal = self.success_pending;
        let mut file: Option<String> = None;
        core::mem::swap(&mut self.current_file, &mut file);
        self.abort();
        self.success_pending = false;
        ReceiveStep::Finish { signal, file }
    }

    /// Handles one frame of the data channel.
    ///
    /// A file descriptor is refused when it announces encryption and there
    /// is no key; otherwise its name is sanitized and the target is to be
    /// created. A data frame is decrypted where the file is encrypted; one
    /// that fails gives up the current file. Its payload is to be written
    /// to the open target; without one it is dropped. The end-of-file
    /// message completes the file, whether or not its size was reached.
    pub fn on_frame(&mut self, frame: ChannelFrame) -> (step: ReceiveStep)
        ensures
            step@ == old(self)@.frame_step(frame@),
            final(self)@ == old(self)@.after_frame(frame@),
            old(self)@.wf() ==> final(self)@.wf(),
    {
        match frame {
            ChannelFrame::Control(DataMessage::Meta { name, size, mime, encrypted }) => {
                if encrypted && self.crypto.is_none() {
                    return ReceiveStep::Refuse;
                }
                let safe = sanitize_file_name(name.as_str());
                ReceiveStep::CreateFile { name: safe, size, mime, encrypted }
            },
            ChannelFrame::Control(DataMessage::Done) => self.finish(),
            ChannelFrame::Data(bytes) => {
                let opened = if self.encrypted {
                    match &self.crypto {
                        None => {
                            return ReceiveStep::Ignore;
                        },
                        Some(cipher) => decrypt_frame(cipher, bytes.as_slice()),
                    }
                } else {
                    Ok(bytes)
                };
                self.on_payload(opened)
            },
            ChannelFrame::Unreadable => ReceiveStep::Ignore,
        }
    }

    /// Takes a data frame as it was opened: the frame itself for a plain
    /// file, the outcome of its decryption for an encrypted one. A payload is
    /// to be written to the open target, and is dropped without one; a frame
    /// that did not open gives up the current file.
    pub fn on_payload(&mut self, opened: Result<Vec<u8>, CryptoError>) -> (step: ReceiveStep)
        ensures
            step@ == old(self)@.payload_step(bytes_of(opened)),
            final(self)@ == old(self)@.after_payload(bytes_of(opened)),
            old(self)@.wf() ==> final(self)@.wf(),
    {
        match opened {
            Ok(payload) => {
                if self.current_file.is_some() {
                    ReceiveStep::Write { payload }
                } else {
                    ReceiveStep::Ignore
                }
            },
            Err(error) => {
                self.abort();
                ReceiveStep::Reject { error }
            },
        }
    }

    /// Records that the output target `name` was created for a file of
    /// `size` bytes, encrypted or not: it becomes the current file, with
    /// nothing received.
    pub fn file_created(&mut self, name: String, size: u64, encrypted: bool)
        ensures
            final(self)@ == old(self)@.after_file_created(name@, size, encrypted),
            final(self)@.wf(),
    {
        self.current_file = Some(name);
        self.expected_size = size;
        self.received = 0;
        self.encrypted = encrypted;
    }

    /// Records that the output target could not be created: the file is
    /// given up.
    pub fn file_failed(&mut self)
        ensures
            final(self)@ == old(self)@.aborted(),
            final(self)@.wf(),
    {
        self.abort();
    }

    /// Records that `len` bytes were written to the target. When that
    /// reaches the declared size of a file that declared one, the file is
    /// complete. The end-of-file message that follows finds no file open:
    /// it completes nothing a second time and signals nothing.
    pub fn chunk_written(&mut self, len: usize) -> (step: ReceiveStep)
        ensures
            step@ == old(self)@.written_step(len as nat),
            final(self)@ == old(self)@.after_written(len as nat),
            old(self)@.wf() ==> final(self)@.wf(),
    {
        if self.current_file.is_none() {
            return ReceiveStep::Ignore;
        }
        let total = self.received.saturating_add(len as u64);
        if self.expected_size > 0 && total >= self.expected_size {
            self.finish()
        } else {
            self.received = total;
            ReceiveStep::Ignore
        }
    }

    /// Records that writing to the target failed: the file is given up.
    pub fn write_failed(&mut self)
        ensures
            final(self)@ == old(self)@.aborted(),
            final(self)@.wf(),
    {
        self.abort();
    }
}

} // verus!
