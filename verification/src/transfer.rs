//! The bookkeeping of one transfer: from the response to the last chunk, with
//! the messages that each step sends.

use vstd::prelude::*;
use crate::error::TransferError;
use crate::message::{DownloadMessage, Message, Notice};

verus! {

/// Where a transfer stands.
#[derive(Debug, Clone, Copy, PartialEq, Eq, Structural)]
pub enum TransferState {
    /// The request is out; the target file held `offset` bytes when it was opened.
    Requested { offset: u64 },
    /// The body is being read: `fetched` bytes are on disk, of `total` where
    /// the server gave a length.
    Streaming { fetched: u64, total: Option<u64> },
    /// The body was read to its end.
    Finished { fetched: u64, total: Option<u64> },
    /// The transfer was aborted.
    Failed { error: TransferError },
}

/// What the network and the disk report to a transfer.
#[derive(Debug, Clone, Copy, PartialEq, Eq, Structural)]
pub enum TransferEvent {
    /// The response arrived, with the length of its body where the server gave one.
    Response { content_length: Option<u64> },
    /// A chunk of `len` bytes was appended to the file.
    Chunk { len: u64 },
    /// The body has ended.
    End,
    /// The network or the disk failed.
    Failure { error: TransferError },
}

/// The message that reports a failure.
pub open spec fn failure(error: TransferError) -> Seq<Message> {
    seq![Message::Download(DownloadMessage::Failed(error))]
}

/// The message that reports `fetched` bytes of `total`.
pub open spec fn progress(fetched: u64, total: Option<u64>) -> Message {
    Message::Download(
        DownloadMessage::Progress(
            fetched,
            match total {
                Some(t) => t,
                None => fetched,
            },
        ),
    )
}

/// The share of `total` that `fetched` is, in percent and at most 100.
pub open spec fn percent_of(fetched: nat, total: nat) -> nat {
    if fetched >= total {
        100
    } else {
        fetched * 100 / total
    }
}

impl TransferState {
    /// The state of a transfer whose request is out, for a file that holds
    /// `existing_len` bytes.
    pub fn begin(existing_len: u64) -> (s: TransferState)
        ensures
            s == (TransferState::Requested { offset: existing_len }),
    {
        TransferState::Requested { offset: existing_len }
    }

    /// Whether the transfer has ended, well or badly.
    pub open spec fn is_terminal(self) -> bool {
        self is Finished || self is Failed
    }

    /// The state after an event.
    pub open spec fn next(self, event: TransferEvent) -> TransferState {
        match self {
            TransferState::Requested { offset } => match event {
                TransferEvent::Response { content_length: Some(len) } => if offset + len
                    <= u64::MAX {
                    TransferState::Streaming {
                        fetched: offset,
                        total: Some((offset + len) as u64),
                    }
                } else {
                    TransferState::Failed { error: TransferError::NetworkError }
                },
                TransferEvent::Response { content_length: None } => TransferState::Streaming {
                    fetched: offset,
                    total: None,
                },
                TransferEvent::Failure { error } => TransferState::Failed { error },
                _ => TransferState::Failed { error: TransferError::NetworkError },
            },
            TransferState::Streaming { fetched, total } => match event {
                TransferEvent::Chunk { len } => if fetched + len <= u64::MAX {
                    TransferState::Streaming { fetched: (fetched + len) as u64, total }
                } else {
                    TransferState::Failed { error: TransferError::NetworkError }
                },
                TransferEvent::End => TransferState::Finished { fetched, total },
                TransferEvent::Failure { error } => TransferState::Failed { error },
                TransferEvent::Response { .. } => TransferState::Failed {
                    error: TransferError::NetworkError,
                },
            },
            _ => self,
        }
    }

    /// The messages that an event makes the transfer send.
    pub open spec fn output(self, event: TransferEvent) -> Seq<Message> {
        match self {
            TransferState::Requested { offset } => match event {
                TransferEvent::Response { content_length: Some(len) } => if offset + len
                    <= u64::MAX {
                    seq![Message::Download(DownloadMessage::Starting)]
                } else {
                    failure(TransferError::NetworkError)
                },
                TransferEvent::Response { content_length: None } => seq![
                    Message::Notification(Notice::UnknownSize),
                    Message::Download(DownloadMessage::Starting),
                ],
                TransferEvent::Failure { error } => failure(error),
                _ => failure(TransferError::NetworkError),
            },
            TransferState::Streaming { fetched, total } => match event {
                TransferEvent::Chunk { len } => if fetched + len <= u64::MAX {
                    seq![progress((fetched + len) as u64, total)]
                } else {
                    failure(TransferError::NetworkError)
                },
                TransferEvent::End => seq![Message::Download(DownloadMessage::Finished)],
                TransferEvent::Failure { error } => failure(error),
                TransferEvent::Response { .. } => failure(TransferError::NetworkError),
            },
            _ => Seq::empty(),
        }
    }

    /// The share of the file that is on disk, in percent; `None` while the
    /// request is out, after a failure, and whenever the size is unknown.
    pub open spec fn percent_spec(self) -> Option<nat> {
        match self {
            TransferState::Streaming { fetched, total: Some(t) } => Some(
                percent_of(fetched as nat, t as nat),
            ),
            TransferState::Finished { fetched, total: Some(t) } => Some(
                percent_of(fetched as nat, t as nat),
            ),
            _ => None,
        }
    }

    /// Takes an event, moves to the next state and returns the messages to send.
    pub fn step(&mut self, event: TransferEvent) -> (out: Vec<Message>)
        ensures
            *final(self) == old(self).next(event),
            out@ == old(self).output(event),
    {
        let mut out: Vec<Message> = Vec::new();
        let state = *self;
        match state {
            TransferState::Requested { offset } => match event {
                TransferEvent::Response { content_length: Some(len) } => {
                    match offset.checked_add(len) {
                        Some(total) => {
                            *self = TransferState::Streaming { fetched: offset, total: Some(total) };
                            out.push(Message::Download(DownloadMessage::Starting));
                        },
                        None => {
                            *self = TransferState::Failed { error: TransferError::NetworkError };
                            out.push(
                                Message::Download(
                                    DownloadMessage::Failed(TransferError::NetworkError),
                                ),
                            );
                        },
                    }
                },
                TransferEvent::Response { content_length: None } => {
                    *self = TransferState::Streaming { fetched: offset, total: None };
                    out.push(Message::Notification(Notice::UnknownSize));
                    out.push(Message::Download(DownloadMessage::Starting));
                },
                TransferEvent::Failure { error } => {
                    *self = TransferState::Failed { error };
                    out.push(Message::Download(DownloadMessage::Failed(error)));
                },
                _ => {
                    *self = TransferState::Failed { error: TransferError::NetworkError };
                    out.push(
                        Message::Download(DownloadMessage::Failed(TransferError::NetworkError)),
                    );
                },
            },
            TransferState::Streaming { fetched, total } => match event {
                TransferEvent::Chunk { len } => {
                    match fetched.checked_add(len) {
                        Some(now) => {
                            *self = TransferState::Streaming { fetched: now, total };
                            let shown = match total {
                                Some(t) => t,
                                None => now,
                            };
                            out.push(Message::Download(DownloadMessage::Progress(now, shown)));
                        },
                        None => {
                            *self = TransferState::Failed { error: TransferError::NetworkError };
                            out.push(
                                Message::Download(
                                    DownloadMessage::Failed(TransferError::NetworkError),
                                ),
                            );
                        },
                    }
                },
                TransferEvent::End => {
                    *self = TransferState::Finished { fetched, total };
                    out.push(Message::Download(DownloadMessage::Finished));
                },
                TransferEvent::Failure { error } => {
                    *self = TransferState::Failed { error };
                    out.push(Message::Download(DownloadMessage::Failed(error)));
                },
                TransferEvent::Response { .. } => {
                    *self = TransferState::Failed { error: TransferError::NetworkError };
                    out.push(
                        Message::Download(DownloadMessage::Failed(TransferError::NetworkError)),
                    );
                },
            },
            _ => {},
        }
        assert(out@ =~= old(self).output(event));
        out
    }

    /// The offset at which the request resumes: the length of the file when
    /// it was opened, unless it was empty.
    pub fn range_start(&self) -> (start: Option<u64>)
        ensures
            start == match *self {
                TransferState::Requested { offset } if offset > 0 => Some(offset),
                _ => None,
            },
    {
        match self {
            TransferState::Requested { offset } => if *offset > 0 {
                Some(*offset)
            } else {
                None
            },
            _ => None,
        }
    }

    /// The share of the file that is on disk, in percent.
    pub fn percent(&self) -> (p: Option<u8>)
        ensures
            match p {
                Some(v) => self.percent_spec() == Some(v as nat),
                None => self.percent_spec() is None,
            },
    {
        match self {
            TransferState::Streaming { fetched, total: Some(t) } => Some(percent(*fetched, *t)),
            TransferState::Finished { fetched, total: Some(t) } => Some(percent(*fetched, *t)),
            _ => None,
        }
    }
}

/// The share of `total` that `fetched` is, in percent and at most 100.
pub fn percent(fetched: u64, total: u64) -> (p: u8)
    ensures
        p == percent_of(fetched as nat, total as nat),
        p <= 100,
{
    if fetched >= total {
        100
    } else {
        let scaled: u128 = (fetched as u128) * 100;
        let share: u128 = scaled / (total as u128);
        assert(share < 100) by (nonlinear_arith)
            requires
                scaled == fetched * 100,
                share == scaled / (total as u128),
                fetched < total,
        ;
        share as u8
    }
}

/// The state that a transfer reaches from `start` over a sequence of events.
pub open spec fn run(start: TransferState, events: Seq<TransferEvent>) -> TransferState
    decreases events.len(),
{
    if events.len() == 0 {
        start
    } else {
        run(start, events.drop_last()).next(events.last())
    }
}

/// The messages that a transfer sends from `start` over a sequence of events,
/// in the order in which it sends them.
pub open spec fn sent(start: TransferState, events: Seq<TransferEvent>) -> Seq<Message>
    decreases events.len(),
{
    if events.len() == 0 {
        Seq::empty()
    } else {
        sent(start, events.drop_last()) + run(start, events.drop_last()).output(events.last())
    }
}

/// The number of bytes in a sequence of chunks.
pub open spec fn total_len(chunks: Seq<u64>) -> nat
    decreases chunks.len(),
{
    if chunks.len() == 0 {
        0
    } else {
        total_len(chunks.drop_last()) + chunks.last() as nat
    }
}

/// The events of a transfer that runs to its end: the response, with the
/// length that the server gives for its body, one event for each chunk that
/// was written, and the end of the body.
pub open spec fn delivery(content_length: Option<u64>, chunks: Seq<u64>) -> Seq<TransferEvent> {
    seq![TransferEvent::Response { content_length }] + chunks.map_values(
        |len: u64| TransferEvent::Chunk { len },
    ) + seq![TransferEvent::End]
}

/// The bytes on disk after the first `n` chunks of a transfer that found
/// `existing_len` bytes.
pub open spec fn on_disk(existing_len: u64, chunks: Seq<u64>, n: int) -> nat {
    existing_len as nat + total_len(chunks.take(n))
}

/// A longer prefix of the chunks holds no fewer bytes.
pub proof fn lemma_total_len_monotone(chunks: Seq<u64>, i: int, j: int)
    requires
        0 <= i <= j <= chunks.len(),
    ensures
        total_len(chunks.take(i)) <= total_len(chunks.take(j)),
        total_len(chunks.take(j)) <= total_len(chunks),
    decreases chunks.len() - i,
{
    if j < chunks.len() {
        assert(chunks.take(j + 1).drop_last() == chunks.take(j));
        lemma_total_len_monotone(chunks, j + 1, chunks.len() as int);
    } else {
        assert(chunks.take(j) == chunks);
    }
    if i < j {
        assert(chunks.take(i + 1).drop_last() == chunks.take(i));
        lemma_total_len_monotone(chunks, i + 1, j);
    }
}

/// While the chunks of a delivery arrive, the transfer is streaming, holds
/// the bytes that were on disk plus those of the chunks so far, and has sent
/// its opening messages and one progress message for each chunk.
proof fn lemma_streaming(
    existing_len: u64,
    content_length: Option<u64>,
    chunks: Seq<u64>,
    k: int,
)
    requires
        0 <= k <= chunks.len(),
        existing_len + total_len(chunks) <= u64::MAX,
        content_length matches Some(len) ==> existing_len + len <= u64::MAX,
    ensures
        ({
            let start = TransferState::Requested { offset: existing_len };
            let events = delivery(content_length, chunks).take(k + 1);
            let total = match content_length {
                Some(len) => Some((existing_len + len) as u64),
                None => None,
            };
            let opening = start.output(TransferEvent::Response { content_length });
            &&& run(start, events) == TransferState::Streaming {
                fetched: on_disk(existing_len, chunks, k) as u64,
                total,
            }
            &&& on_disk(existing_len, chunks, k) <= u64::MAX
            &&& sent(start, events).len() == opening.len() + k
            &&& sent(start, events).take(opening.len() as int) == opening
            &&& forall|i: int|
                0 <= i < k ==> #[trigger] sent(start, events)[opening.len() + i] == progress(
                    on_disk(existing_len, chunks, i + 1) as u64,
                    total,
                )
        }),
    decreases k,
{
    let start = TransferState::Requested { offset: existing_len };
    let all = delivery(content_length, chunks);
    let events = all.take(k + 1);
    let opening = start.output(TransferEvent::Response { content_length });
    lemma_total_len_monotone(chunks, k, k);
    if k == 0 {
        assert(events.drop_last() == Seq::<TransferEvent>::empty());
        assert(events.last() == TransferEvent::Response { content_length });
        assert(chunks.take(0) == Seq::<u64>::empty());
        assert(sent(start, events.drop_last()) == Seq::<Message>::empty());
        assert(sent(start, events) == opening);
        assert(sent(start, events).take(opening.len() as int) == opening);
    } else {
        lemma_streaming(existing_len, content_length, chunks, k - 1);
        let before = all.take(k);
        assert(events.drop_last() == before);
        assert(events.last() == TransferEvent::Chunk { len: chunks[k - 1] });
        assert(chunks.take(k).drop_last() == chunks.take(k - 1));
        assert(chunks.take(k).last() == chunks[k - 1]);
        let total = match content_length {
            Some(len) => Some((existing_len + len) as u64),
            None => None,
        };
        let report = progress(on_disk(existing_len, chunks, k) as u64, total);
        assert(run(start, before).output(events.last()) == seq![report]);
        assert(sent(start, events) == sent(start, before) + seq![report]);
        assert(sent(start, events).take(opening.len() as int) == sent(start, before).take(
            opening.len() as int,
        ));
        assert forall|i: int| 0 <= i < k implies #[trigger] sent(start, events)[opening.len()
            + i] == progress(on_disk(existing_len, chunks, i + 1) as u64, total) by {
            if i < k - 1 {
                assert(sent(start, events)[opening.len() + i] == sent(start, before)[opening.len()
                    + i]);
            }
        }
    }
}

/// A transfer that runs to its end finishes with every byte on disk, and its
/// last message reports that it has finished.
pub proof fn lemma_delivery_finishes(
    existing_len: u64,
    content_length: Option<u64>,
    chunks: Seq<u64>,
)
    requires
        existing_len + total_len(chunks) <= u64::MAX,
        content_length matches Some(len) ==> existing_len + len <= u64::MAX,
    ensures
        ({
            let start = TransferState::Requested { offset: existing_len };
            let events = delivery(content_length, chunks);
            &&& run(start, events) == TransferState::Finished {
                fetched: (existing_len + total_len(chunks)) as u64,
                total: match content_length {
                    Some(len) => Some((existing_len + len) as u64),
                    None => None,
                },
            }
            &&& sent(start, events).len() > 0
            &&& sent(start, events).last() == Message::Download(DownloadMessage::Finished)
            &&& sent(start, events).drop_last() == sent(start, events.drop_last())
        }),
{
    let start = TransferState::Requested { offset: existing_len };
    let events = delivery(content_length, chunks);
    let n = chunks.len() as int;
    lemma_streaming(existing_len, content_length, chunks, n);
    assert(events.drop_last() == events.take(n + 1));
    assert(events.last() == TransferEvent::End);
    assert(chunks.take(n) == chunks);
    let done = seq![Message::Download(DownloadMessage::Finished)];
    assert(sent(start, events) == sent(start, events.drop_last()) + done);
    assert(sent(start, events).drop_last() == sent(start, events.drop_last()));
}

/// Resuming: when the file already holds `existing_len` bytes and the server
/// delivers the `remaining` bytes that it announced, the transfer finishes
/// with the whole resource on disk: the bytes that were there and those that
/// remained. (That the request asks for the range from `existing_len` on is
/// what [`crate::request::request_headers`] ensures.)
pub proof fn lemma_resumed_transfer_is_complete(
    existing_len: u64,
    remaining: u64,
    chunks: Seq<u64>,
)
    requires
        total_len(chunks) == remaining,
        existing_len + remaining <= u64::MAX,
    ensures
        run(
            TransferState::Requested { offset: existing_len },
            delivery(Some(remaining), chunks),
        ) == (TransferState::Finished {
            fetched: (existing_len + remaining) as u64,
            total: Some((existing_len + remaining) as u64),
        }),
{
    lemma_delivery_finishes(existing_len, Some(remaining), chunks);
}

/// Known size: when the server gives the length of the body, the transfer
/// sends `Starting`, then one progress message for each chunk, with the bytes
/// on disk and the size of the whole file, and at last `Finished`.
pub proof fn lemma_known_size_transfer(existing_len: u64, remaining: u64, chunks: Seq<u64>)
    requires
        existing_len + total_len(chunks) <= u64::MAX,
        existing_len + remaining <= u64::MAX,
    ensures
        ({
            let start = TransferState::Requested { offset: existing_len };
            let out = sent(start, delivery(Some(remaining), chunks));
            &&& out.len() == chunks.len() + 2
            &&& out[0] == Message::Download(DownloadMessage::Starting)
            &&& forall|i: int|
                0 <= i < chunks.len() ==> #[trigger] out[i + 1] == Message::Download(
                    DownloadMessage::Progress(
                        on_disk(existing_len, chunks, i + 1) as u64,
                        (existing_len + remaining) as u64,
                    ),
                )
            &&& out.last() == Message::Download(DownloadMessage::Finished)
        }),
{
    let start = TransferState::Requested { offset: existing_len };
    let events = delivery(Some(remaining), chunks);
    let out = sent(start, events);
    let n = chunks.len() as int;
    lemma_delivery_finishes(existing_len, Some(remaining), chunks);
    lemma_streaming(existing_len, Some(remaining), chunks, n);
    let body = sent(start, events.drop_last());
    assert(events.drop_last() == events.take(n + 1));
    assert(out.drop_last() == body);
    assert(body.take(1) == start.output(TransferEvent::Response { content_length: Some(remaining) }));
    assert(out[0] == body.take(1)[0]);
    assert forall|i: int| 0 <= i < chunks.len() implies #[trigger] out[i + 1]
        == Message::Download(
        DownloadMessage::Progress(
            on_disk(existing_len, chunks, i + 1) as u64,
            (existing_len + remaining) as u64,
        ),
    ) by {
        assert(out[i + 1] == body[1 + i]);
    }
}

/// A transfer that has ended stays as it is and sends nothing more, whatever
/// is reported to it: a failure is final, and so is the end.
pub proof fn lemma_ended_transfer_is_silent(state: TransferState, events: Seq<TransferEvent>)
    requires
        state.is_terminal(),
    ensures
        run(state, events) == state,
        sent(state, events) == Seq::<Message>::empty(),
    decreases events.len(),
{
    if events.len() > 0 {
        lemma_ended_transfer_is_silent(state, events.drop_last());
    }
}

/// Any failure aborts a running transfer: the state records the error, and
/// the one message sent reports it.
pub proof fn lemma_failure_aborts(state: TransferState, error: TransferError)
    requires
        !state.is_terminal(),
    ensures
        state.next(TransferEvent::Failure { error }) == (TransferState::Failed { error }),
        state.output(TransferEvent::Failure { error }) == failure(error),
{
}

/// Unknown size: when the server gives no length, the transfer sends the
/// notice of the unknown size once, then `Starting`, then one progress
/// message for each chunk, whose byte counts never decrease and which carry
/// the count in place of a total, and at last `Finished`; at no point of the
/// transfer is there a percentage.
pub proof fn lemma_unknown_size_transfer(existing_len: u64, chunks: Seq<u64>)
    requires
        existing_len + total_len(chunks) <= u64::MAX,
    ensures
        ({
            let start = TransferState::Requested { offset: existing_len };
            let events = delivery(None, chunks);
            let out = sent(start, events);
            &&& out.len() == chunks.len() + 3
            &&& out[0] == Message::Notification(Notice::UnknownSize)
            &&& out[1] == Message::Download(DownloadMessage::Starting)
            &&& forall|i: int|
                0 <= i < chunks.len() ==> #[trigger] out[i + 2] == Message::Download(
                    DownloadMessage::Progress(
                        on_disk(existing_len, chunks, i + 1) as u64,
                        on_disk(existing_len, chunks, i + 1) as u64,
                    ),
                )
            &&& forall|i: int, j: int|
                0 <= i <= j <= chunks.len() ==> #[trigger] on_disk(existing_len, chunks, i)
                    <= #[trigger] on_disk(existing_len, chunks, j) <= u64::MAX
            &&& out.last() == Message::Download(DownloadMessage::Finished)
            &&& forall|k: int|
                0 <= k <= events.len() ==> (#[trigger] run(start, events.take(k))).percent_spec()
                    is None
        }),
{
    let start = TransferState::Requested { offset: existing_len };
    let events = delivery(None, chunks);
    let out = sent(start, events);
    let n = chunks.len() as int;
    lemma_delivery_finishes(existing_len, None, chunks);
    lemma_streaming(existing_len, None, chunks, n);
    let body = sent(start, events.drop_last());
    assert(events.drop_last() == events.take(n + 1));
    assert(out.drop_last() == body);
    assert(body.take(2) == start.output(TransferEvent::Response { content_length: None }));
    assert(out[0] == body.take(2)[0]);
    assert(out[1] == body.take(2)[1]);
    assert forall|i: int| 0 <= i < chunks.len() implies #[trigger] out[i + 2]
        == Message::Download(
        DownloadMessage::Progress(
            on_disk(existing_len, chunks, i + 1) as u64,
            on_disk(existing_len, chunks, i + 1) as u64,
        ),
    ) by {
        assert(out[i + 2] == body[2 + i]);
    }
    assert forall|i: int, j: int| 0 <= i <= j <= chunks.len() implies #[trigger] on_disk(
        existing_len,
        chunks,
        i,
    ) <= #[trigger] on_disk(existing_len, chunks, j) <= u64::MAX by {
        lemma_total_len_monotone(chunks, i, j);
    }
    assert forall|k: int| 0 <= k <= events.len() implies (#[trigger] run(
        start,
        events.take(k),
    )).percent_spec() is None by {
        if k == 0 {
            assert(events.take(0) == Seq::<TransferEvent>::empty());
        } else if k <= n + 1 {
            lemma_streaming(existing_len, None, chunks, k - 1);
        } else {
            assert(events.take(k) == events);
        }
    }
}

/// Whether a message reports the end of a transfer: its success or its failure.
pub open spec fn is_ending(message: Message) -> bool {
    message matches Message::Download(m) && (m is Finished || m is Failed)
}

/// Whether a message is one that a transfer sends: a message about the
/// download, or the notice of the unknown size.
pub open spec fn is_transfer_message(message: Message) -> bool {
    message is Download || message == Message::Notification(Notice::UnknownSize)
}

/// One ending for each transfer: whatever is reported to a transfer,
/// - it sends nothing but messages about the download and the notice of the
///   unknown size;
/// - it reports an end at most once, and then as its last message;
/// - it has reported an end exactly when it has ended.
pub proof fn lemma_one_ending_per_transfer(start: TransferState, events: Seq<TransferEvent>)
    requires
        !start.is_terminal(),
    ensures
        ({
            let out = sent(start, events);
            &&& forall|i: int| 0 <= i < out.len() ==> is_transfer_message(#[trigger] out[i])
            &&& forall|i: int| 0 <= i < out.len() - 1 ==> !is_ending(#[trigger] out[i])
            &&& run(start, events).is_terminal() <==> out.len() > 0 && is_ending(out.last())
        }),
    decreases events.len(),
{
    if events.len() > 0 {
        let before = events.drop_last();
        lemma_one_ending_per_transfer(start, before);
        let state = run(start, before);
        let earlier = sent(start, before);
        let step = state.output(events.last());
        let out = sent(start, events);
        assert(out == earlier + step);
        if state.is_terminal() {
            assert(out == earlier);
        } else {
            assert forall|i: int| 0 <= i < out.len() implies is_transfer_message(
                #[trigger] out[i],
            ) by {
                if i >= earlier.len() {
                    assert(out[i] == step[i - earlier.len()]);
                }
            }
            assert forall|i: int| 0 <= i < out.len() - 1 implies !is_ending(#[trigger] out[i]) by {
                if i >= earlier.len() {
                    assert(out[i] == step[i - earlier.len()]);
                } else {
                    assert(out[i] == earlier[i]);
                }
            }
            assert(step.len() > 0);
            assert(out.last() == step.last());
        }
    }
}

} // verus!
