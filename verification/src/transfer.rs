//! The transfer protocol end to end: what the sending end puts on the
//! channel for a file, and what the receiving end makes of it.

use vstd::prelude::*;
use crate::chunking::{chunk_count, chunks_of, lemma_chunks_of};
use crate::crypto::{frame_open, is_frame_of};
use crate::messages::{ControlView, WireFrame};
use crate::names::sanitized;
use crate::receive::{ProgressView, ReceiveStepView};
use crate::send::{carries, chunk_size_for, idle_step, SendPhase, SendStepView, SenderView};

verus! {

/// What happens at the sending end.
pub enum SendEvent {
    /// The transfer of the file `name` of `size` bytes and type `mime` starts.
    Begin { name: Seq<char>, size: u64, mime: Seq<char> },
    /// A chunk was read; `frame` is what it was framed as. An empty chunk
    /// is the end of the file.
    Chunk { chunk: Seq<u8>, frame: Seq<u8> },
    /// The channel was looked at.
    Drain { open: bool, buffered: nat },
}

/// The sending end after `event`, and the step that the event asks for.
pub open spec fn send_one(sender: SenderView, event: SendEvent) -> (SenderView, SendStepView) {
    match event {
        SendEvent::Begin { name, size, mime } => (
            sender.after_begin(),
            sender.begin_step(name, size, mime),
        ),
        SendEvent::Chunk { chunk, frame } => if sender.phase != SendPhase::Reading {
            (sender, idle_step())
        } else if chunk.len() == 0 {
            (sender.after_end(), sender.end_step())
        } else if sender.takes_chunk(chunk) {
            (sender, sender.chunk_step(frame))
        } else {
            (sender.failed(), idle_step())
        },
        SendEvent::Drain { open, buffered } => (
            sender.after_drain(open, buffered),
            sender.drain_step(open, buffered),
        ),
    }
}

/// The frames that the sending end puts on the channel over `events`, in
/// order.
pub open spec fn emitted(sender: SenderView, events: Seq<SendEvent>) -> Seq<WireFrame>
    decreases events.len(),
{
    if events.len() == 0 {
        Seq::empty()
    } else {
        let (next, step) = send_one(sender, events.first());
        match step.emit {
            Some(frame) => seq![frame] + emitted(next, events.drop_first()),
            None => emitted(next, events.drop_first()),
        }
    }
}

/// The events of reading `chunks` one after the other, each framed as the
/// frame at its place in `frames`.
pub open spec fn chunk_events(chunks: Seq<Seq<u8>>, frames: Seq<Seq<u8>>) -> Seq<SendEvent> {
    Seq::new(chunks.len(), |i: int| SendEvent::Chunk { chunk: chunks[i], frame: frames[i] })
}

/// The event of reaching the end of the file.
pub open spec fn end_event() -> SendEvent {
    SendEvent::Chunk { chunk: Seq::empty(), frame: Seq::empty() }
}

/// The data frames `frames` as they appear on the channel.
pub open spec fn data_frames(frames: Seq<Seq<u8>>) -> Seq<WireFrame> {
    Seq::new(frames.len(), |i: int| WireFrame::Data(frames[i]))
}

/// The end-of-file message as it appears on the channel.
pub open spec fn done_frame() -> WireFrame {
    WireFrame::Control(ControlView::Done)
}

/// What a whole transfer looks like on the channel: the descriptor, the
/// data frames, the end-of-file message.
pub open spec fn transcript(descriptor: WireFrame, frames: Seq<Seq<u8>>) -> Seq<WireFrame> {
    seq![descriptor] + data_frames(frames) + seq![done_frame()]
}

/// Whether each of `frames` carries the chunk at its place in `chunks`.
pub open spec fn all_carried(key: Option<Seq<u8>>, chunks: Seq<Seq<u8>>, frames: Seq<Seq<u8>>) -> bool {
    &&& frames.len() == chunks.len()
    &&& forall|i: int| 0 <= i < chunks.len() ==> carries(key, #[trigger] chunks[i], frames[i])
}

proof fn lemma_reading_emits(sender: SenderView, chunks: Seq<Seq<u8>>, frames: Seq<Seq<u8>>)
    requires
        sender.phase == SendPhase::Reading,
        chunks.len() == frames.len(),
        forall|i: int|
            0 <= i < chunks.len() ==> 0 < (#[trigger] chunks[i]).len() <= chunk_size_for(
                sender.encrypted(),
            ),
    ensures
        emitted(sender, chunk_events(chunks, frames) + seq![end_event()]) == data_frames(frames)
            + seq![done_frame()],
    decreases chunks.len(),
{
    let events = chunk_events(chunks, frames) + seq![end_event()];
    if chunks.len() == 0 {
        assert(events.first() == end_event());
        assert(events.drop_first() =~= Seq::<SendEvent>::empty());
        assert(emitted(sender.after_end(), events.drop_first()) =~= Seq::<WireFrame>::empty());
        assert(emitted(sender, events) =~= data_frames(frames) + seq![done_frame()]);
    } else {
        let rest_chunks = chunks.drop_first();
        let rest_frames = frames.drop_first();
        assert(events.first() == SendEvent::Chunk { chunk: chunks[0], frame: frames[0] });
        assert(events.drop_first() =~= chunk_events(rest_chunks, rest_frames) + seq![end_event()]);
        assert forall|i: int| 0 <= i < rest_chunks.len() implies 0 < (
        #[trigger] rest_chunks[i]).len() <= chunk_size_for(sender.encrypted()) by {
            assert(rest_chunks[i] == chunks[i + 1]);
        }
        lemma_reading_emits(sender, rest_chunks, rest_frames);
        assert(seq![WireFrame::Data(frames[0])] + (data_frames(rest_frames) + seq![done_frame()])
            =~= data_frames(frames) + seq![done_frame()]);
    }
}

/// A sending end that is given the chunks of a file, none empty and none
/// too long, and then the end of the file, puts on the channel the
/// descriptor once, one data frame per chunk in order, and the end-of-file
/// message once.
pub proof fn lemma_sender_emits_transcript(
    sender: SenderView,
    name: Seq<char>,
    size: u64,
    mime: Seq<char>,
    chunks: Seq<Seq<u8>>,
    frames: Seq<Seq<u8>>,
)
    requires
        sender.phase == SendPhase::Ready,
        chunks.len() == frames.len(),
        forall|i: int|
            0 <= i < chunks.len() ==> 0 < (#[trigger] chunks[i]).len() <= chunk_size_for(
                sender.encrypted(),
            ),
    ensures
        emitted(
            sender,
            seq![SendEvent::Begin { name, size, mime }] + chunk_events(chunks, frames)
                + seq![end_event()],
        ) == transcript(sender.descriptor(name, size, mime), frames),
        transcript(sender.descriptor(name, size, mime), frames).len() == frames.len() + 2,
{
    let begin = SendEvent::Begin { name, size, mime };
    let events = seq![begin] + chunk_events(chunks, frames) + seq![end_event()];
    assert(events.first() == begin);
    assert(events.drop_first() =~= chunk_events(chunks, frames) + seq![end_event()]);
    lemma_reading_emits(sender.after_begin(), chunks, frames);
    assert(seq![sender.descriptor(name, size, mime)] + (data_frames(frames) + seq![done_frame()])
        =~= transcript(sender.descriptor(name, size, mime), frames));
}

/// What the receiving end has done so far.
pub struct Received {
    /// The receiving end itself.
    pub progress: ProgressView,
    /// The output targets created, oldest first, each with what was
    /// written to it.
    pub files: Seq<(Seq<char>, Seq<u8>)>,
    /// How often the completion of the session was signalled.
    pub signals: nat,
}

/// `files` with `payload` appended to the newest.
pub open spec fn appended(files: Seq<(Seq<char>, Seq<u8>)>, payload: Seq<u8>) -> Seq<
    (Seq<char>, Seq<u8>),
> {
    if files.len() == 0 {
        files
    } else {
        files.drop_last().push((files.last().0, files.last().1 + payload))
    }
}

/// What a step adds to the count of completion signals.
pub open spec fn signal_of(step: ReceiveStepView) -> nat {
    match step {
        ReceiveStepView::Finish { signal, file } => if signal {
            1
        } else {
            0
        },
        _ => 0,
    }
}

/// The receiving end after `frame`, where creating and writing succeed.
pub open spec fn receive_one(r: Received, frame: WireFrame) -> Received {
    let step = r.progress.frame_step(frame);
    let progress = r.progress.after_frame(frame);
    match step {
        ReceiveStepView::CreateFile { name, size, mime, encrypted } => Received {
            progress: progress.after_file_created(name, size, encrypted),
            files: r.files.push((name, Seq::empty())),
            signals: r.signals,
        },
        ReceiveStepView::Write { payload } => Received {
            progress: progress.after_written(payload.len()),
            files: appended(r.files, payload),
            signals: r.signals + signal_of(progress.written_step(payload.len())),
        },
        _ => Received { progress, files: r.files, signals: r.signals + signal_of(step) },
    }
}

/// The receiving end after `frames`, where creating and writing succeed.
pub open spec fn receive_all(r: Received, frames: Seq<WireFrame>) -> Received
    decreases frames.len(),
{
    if frames.len() == 0 {
        r
    } else {
        receive_all(receive_one(r, frames.first()), frames.drop_first())
    }
}

/// A receiving end that has done nothing yet.
pub open spec fn fresh_receiver(key: Option<Seq<u8>>, stay_open: bool) -> Received {
    Received { progress: ProgressView::idle(key, stay_open), files: Seq::empty(), signals: 0 }
}

proof fn lemma_receive_concat(r: Received, a: Seq<WireFrame>, b: Seq<WireFrame>)
    ensures
        receive_all(r, a + b) == receive_all(receive_all(r, a), b),
    decreases a.len(),
{
    if a.len() == 0 {
        assert(a + b =~= b);
    } else {
        assert((a + b).first() == a.first());
        assert((a + b).drop_first() =~= a.drop_first() + b);
        lemma_receive_concat(receive_one(r, a.first()), a.drop_first(), b);
    }
}

proof fn lemma_receive_data(
    r: Received,
    key: Option<Seq<u8>>,
    rest: Seq<u8>,
    chunk: nat,
    frames: Seq<Seq<u8>>,
)
    requires
        chunk > 0,
        r.progress.current_file is Some,
        r.files.len() > 0,
        r.progress.encrypted == (key is Some),
        key is Some ==> r.progress.key == key,
        r.progress.received + rest.len() == r.progress.expected_size,
        all_carried(key, chunks_of(rest, chunk), frames),
    ensures
        receive_all(r, data_frames(frames)).files == appended(r.files, rest),
        rest.len() == 0 ==> receive_all(r, data_frames(frames)) == r,
        rest.len() > 0 ==> receive_all(r, data_frames(frames)).progress == r.progress.finished(),
        rest.len() > 0 ==> receive_all(r, data_frames(frames)).signals == r.signals + if r.progress.success_pending {
            1nat
        } else {
            0nat
        },
    decreases rest.len(),
{
    let chunks = chunks_of(rest, chunk);
    let wire = data_frames(frames);
    if rest.len() == 0 {
        assert(wire =~= Seq::<WireFrame>::empty());
        assert(appended(r.files, rest) =~= r.files) by {
            assert(r.files.last().1 + rest =~= r.files.last().1);
        }
    } else {
        let first = chunks[0];
        assert(carries(key, chunks[0], frames[0]));
        assert(wire.first() == WireFrame::Data(frames[0]));
        let step = r.progress.frame_step(wire.first());
        assert(step == ReceiveStepView::Write { payload: first }) by {
            match key {
                Some(k) => {
                    assert(is_frame_of(k, first, frames[0]));
                    assert(frame_open(k, frames[0]) == Some(first));
                },
                None => {},
            }
        }
        assert(r.progress.after_frame(wire.first()) == r.progress);
        let r1 = receive_one(r, wire.first());
        if rest.len() <= chunk {
            assert(first == rest);
            assert(wire.drop_first() =~= Seq::<WireFrame>::empty());
            assert(receive_all(r1, wire.drop_first()) == r1);
        } else {
            let tail = rest.skip(chunk as int);
            assert(first == rest.take(chunk as int));
            assert(chunks.drop_first() =~= chunks_of(tail, chunk));
            let tail_frames = frames.drop_first();
            assert(wire.drop_first() =~= data_frames(tail_frames));
            assert forall|i: int| 0 <= i < chunks_of(tail, chunk).len() implies carries(
                key,
                #[trigger] chunks_of(tail, chunk)[i],
                tail_frames[i],
            ) by {
                assert(chunks_of(tail, chunk)[i] == chunks[i + 1]);
                assert(carries(key, chunks[i + 1], frames[i + 1]));
            }
            assert(r1.progress == (ProgressView {
                received: (r.progress.received + chunk) as u64,
                ..r.progress
            }));
            lemma_receive_data(r1, key, tail, chunk, tail_frames);
            assert(appended(appended(r.files, first), tail) =~= appended(r.files, rest)) by {
                assert(first + tail =~= rest);
                assert((r.files.last().1 + first) + tail =~= r.files.last().1 + rest);
            }
        }
    }
}

/// A receiving end that has done nothing yet, and that holds the key where
/// the transfer is encrypted, makes of a whole transfer exactly one file:
/// it has the sanitized name and the bytes that were sent. The completion
/// of the session is signalled once, unless the session is to stay open,
/// and no file is left open.
pub proof fn lemma_receiver_reconstructs(
    key: Option<Seq<u8>>,
    receiver_key: Option<Seq<u8>>,
    stay_open: bool,
    name: Seq<char>,
    mime: Seq<char>,
    data: Seq<u8>,
    chunk: nat,
    frames: Seq<Seq<u8>>,
)
    requires
        chunk > 0,
        data.len() <= u64::MAX,
        key is Some ==> receiver_key == key,
        all_carried(key, chunks_of(data, chunk), frames),
    ensures
        ({
            let descriptor = WireFrame::Control(
                ControlView::Meta { name, size: data.len() as u64, mime, encrypted: key is Some },
            );
            let end = receive_all(
                fresh_receiver(receiver_key, stay_open),
                transcript(descriptor, frames),
            );
            &&& end.files == seq![(sanitized(name), data)]
            &&& end.signals == if stay_open {
                0nat
            } else {
                1nat
            }
            &&& end.progress.current_file is None
        }),
{
    let descriptor = WireFrame::Control(
        ControlView::Meta { name, size: data.len() as u64, mime, encrypted: key is Some },
    );
    let r0 = fresh_receiver(receiver_key, stay_open);
    let head = seq![descriptor];
    let body = data_frames(frames);
    let tail = seq![done_frame()];
    lemma_receive_concat(r0, head + body, tail);
    lemma_receive_concat(r0, head, body);
    let r1 = receive_one(r0, descriptor);
    assert(head.first() == descriptor);
    assert(head.drop_first() =~= Seq::<WireFrame>::empty());
    assert(receive_all(r0, head) == r1) by {
        assert(receive_all(r1, head.drop_first()) == r1);
    }
    assert(r0.progress.accepts(key is Some));
    assert(r1.files =~= seq![(sanitized(name), Seq::<u8>::empty())]);
    lemma_receive_data(r1, key, data, chunk, frames);
    let r2 = receive_all(r1, body);
    assert(appended(r1.files, data) =~= seq![(sanitized(name), data)]) by {
        assert(Seq::<u8>::empty() + data =~= data);
    }
    assert(tail.first() == done_frame());
    assert(tail.drop_first() =~= Seq::<WireFrame>::empty());
    let r3 = receive_one(r2, done_frame());
    assert(receive_all(r2, tail) == r3) by {
        assert(receive_all(r3, tail.drop_first()) == r3);
    }
}

/// A file of `data.len()` bytes, sent in chunks of `chunk` bytes, goes over
/// the channel as one descriptor, `data.len() / chunk` data frames, rounded
/// up, and one end-of-file message; and what the receiving end writes is
/// the file, byte for byte.
pub proof fn lemma_end_to_end(
    key: Option<Seq<u8>>,
    stay_open: bool,
    name: Seq<char>,
    mime: Seq<char>,
    data: Seq<u8>,
    chunk: nat,
    frames: Seq<Seq<u8>>,
)
    requires
        0 < chunk <= chunk_size_for(key is Some),
        data.len() <= u64::MAX,
        all_carried(key, chunks_of(data, chunk), frames),
    ensures
        ({
            let sender = SenderView { phase: SendPhase::Ready, key };
            let events = seq![SendEvent::Begin { name, size: data.len() as u64, mime }]
                + chunk_events(chunks_of(data, chunk), frames) + seq![end_event()];
            let sent = emitted(sender, events);
            let end = receive_all(fresh_receiver(key, stay_open), sent);
            &&& sent == transcript(sender.descriptor(name, data.len() as u64, mime), frames)
            &&& frames.len() == chunk_count(data.len(), chunk)
            &&& sent.len() == chunk_count(data.len(), chunk) + 2
            &&& end.files == seq![(sanitized(name), data)]
            &&& end.progress.current_file is None
        }),
{
    let sender = SenderView { phase: SendPhase::Ready, key };
    lemma_chunks_of(data, chunk);
    lemma_sender_emits_transcript(
        sender,
        name,
        data.len() as u64,
        mime,
        chunks_of(data, chunk),
        frames,
    );
    lemma_receiver_reconstructs(key, key, stay_open, name, mime, data, chunk, frames);
}

} // verus!
