//! Appending to an object over an open write stream.
use bytes::Bytes;
use vstd::prelude::*;

use crate::error::{generic, map_grpc_error, Error, Source, Status};
use crate::payload::{bytes_content, chunk_contents};
use crate::proto::{
    blank_request, BidiWriteObjectRequest, BidiWriteObjectRequestView, BidiWriteObjectResponse,
    ChecksummedData, WriteStatus,
};
use crate::write::WriteResponses;

verus! {

/// The operation under which a failed flush is reported.
pub const FLUSH: &'static str = "flush";

/// The operation under which a failed finalization is reported.
pub const FINALIZE: &'static str = "finalize";

/// What is reported where the stream ends before a flush is confirmed.
pub const CLOSED_DURING_FLUSH: &'static str = "Stream closed during flush";

/// A writer for an appendable object.
///
/// The data that is written is buffered in the stream and only persisted when
/// it is flushed. Finalizing closes the object and makes it immutable.
///
/// The offset of a writer is the number of bytes that it has sent itself. A
/// writer of a resumed object starts at zero as well, whatever the object holds
/// already.
#[derive(Debug, PartialEq)]
pub struct AppendWriter {
    write_offset: i64,
    awaited: u64,
}

/// A write whose message is on its way.
#[derive(Debug, PartialEq)]
pub struct PendingWrite {
    start: i64,
    end: i64,
}

/// What to do next about a flush.
#[derive(Debug)]
pub enum FlushStep {
    /// Receive one more answer: the last one belonged to an earlier message.
    Receive,
    /// Report the result: the flush is over.
    Done(Result<i64, Error>),
}

/// The message that carries `data` to be stored at `offset`.
pub open spec fn write_message(offset: i64, data: Bytes) -> BidiWriteObjectRequestView {
    BidiWriteObjectRequestView {
        write_offset: offset,
        data: Some(ChecksummedData { content: data, crc32c: None }),
        ..blank_request()
    }
}

/// The message that asks for everything before `offset` to be persisted, and
/// for the size that then is.
pub open spec fn flush_message(offset: i64) -> BidiWriteObjectRequestView {
    BidiWriteObjectRequestView {
        write_offset: offset,
        flush: true,
        state_lookup: true,
        ..blank_request()
    }
}

/// The message that ends the object at `offset`.
pub open spec fn finish_message(offset: i64) -> BidiWriteObjectRequestView {
    BidiWriteObjectRequestView { write_offset: offset, finish_write: true, ..blank_request() }
}

/// The size that an answer confirms as persisted, or `offset` where it names
/// none.
pub open spec fn confirmed_size(response: BidiWriteObjectResponse, offset: i64) -> i64 {
    match response.write_status {
        Some(WriteStatus::PersistedSize(size)) => size,
        _ => offset,
    }
}

/// What a flush reports where one more answer comes in, with `awaited` answers
/// awaited and `offset` bytes sent: nothing yet where the answer belongs to an
/// earlier message, and else the size that it confirms.
pub open spec fn flush_step(
    awaited: nat,
    offset: i64,
    response: BidiWriteObjectResponse,
) -> Option<i64> {
    if awaited > 1 {
        None
    } else {
        Some(confirmed_size(response, offset))
    }
}

/// The number of answers awaited once one more has come in.
pub open spec fn awaited_after(awaited: nat) -> nat {
    if awaited > 0 {
        (awaited - 1) as nat
    } else {
        0
    }
}

/// Whether the request stream took a message.
pub fn request_sent(sent: bool) -> (r: Result<(), Error>)
    ensures
        sent <==> r is Ok,
        r matches Err(error) ==> error@ == crate::error::generic_error(
            crate::error::SourceView::RequestStreamClosed,
        ),
{
    if sent {
        Ok(())
    } else {
        Err(generic(Source::RequestStreamClosed))
    }
}

impl PendingWrite {
    /// Where the data of this write starts.
    pub closed spec fn start(self) -> i64 {
        self.start
    }

    /// Where the next write starts once this one is sent.
    pub closed spec fn end(self) -> i64 {
        self.end
    }

    #[verifier::type_invariant]
    closed spec fn inv(self) -> bool {
        0 <= self.start <= self.end
    }
}

impl AppendWriter {
    /// The number of bytes sent so far.
    pub closed spec fn offset(self) -> i64 {
        self.write_offset
    }

    /// The number of messages sent that ask for an answer and have none yet.
    pub closed spec fn awaited(self) -> u64 {
        self.awaited
    }

    #[verifier::type_invariant]
    closed spec fn inv(self) -> bool {
        self.write_offset >= 0
    }

    /// A writer on a stream that has just been opened. It has sent no data, and
    /// the answer to the message that opened the stream is awaited.
    pub fn new() -> (writer: AppendWriter)
        ensures
            writer.offset() == 0,
            writer.awaited() == 1,
    {
        AppendWriter { write_offset: 0, awaited: 1 }
    }

    /// The message that writes `data` without flushing it. The data is not
    /// persisted until the writer is flushed.
    pub fn write(&self, data: Bytes) -> (r: (BidiWriteObjectRequest, PendingWrite))
        requires
            self.offset() + bytes_content(data).len() <= i64::MAX,
        ensures
            r.0@ == write_message(self.offset(), data),
            r.0.write_offset == self.offset(),
            r.0.data matches Some(sent) && sent.content == data && sent.crc32c is None,
            r.0.first_message is None,
            !r.0.flush && !r.0.state_lookup && !r.0.finish_write,
            r.1.start() == self.offset(),
            r.1.end() == self.offset() + bytes_content(data).len(),
    {
        proof {
            use_type_invariant(self);
        }
        let end: i64 = self.write_offset + data.len() as i64;
        let request = BidiWriteObjectRequest {
            write_offset: self.write_offset,
            data: Some(ChecksummedData { content: data, crc32c: None }),
            ..BidiWriteObjectRequest::default()
        };
        (request, PendingWrite { start: self.write_offset, end })
    }

    /// Takes note of whether the message of a write was sent. The writer moves
    /// on only if it was. One write is noted before the next one is made.
    pub fn write_sent(&mut self, pending: PendingWrite, sent: bool) -> (r: Result<(), Error>)
        requires
            pending.start() == old(self).offset(),
        ensures
            final(self).awaited() == old(self).awaited(),
            sent <==> r is Ok,
            r matches Err(error) ==> error@ == crate::error::generic_error(
                crate::error::SourceView::RequestStreamClosed,
            ),
            final(self).offset() == (if sent {
                pending.end()
            } else {
                old(self).offset()
            }),
    {
        proof {
            use_type_invariant(&pending);
        }
        request_sent(sent)?;
        self.write_offset = pending.end;
        Ok(())
    }

    /// The message that persists all data written so far, and asks for the
    /// size that is persisted then.
    pub fn flush(&self) -> (request: BidiWriteObjectRequest)
        ensures
            request@ == flush_message(self.offset()),
            request.write_offset == self.offset(),
            request.flush && request.state_lookup && !request.finish_write,
            request.data is None && request.first_message is None,
    {
        BidiWriteObjectRequest {
            write_offset: self.write_offset,
            flush: true,
            state_lookup: true,
            ..BidiWriteObjectRequest::default()
        }
    }

    /// Takes note of whether the message of a flush was sent. If it was, one
    /// more answer is awaited.
    pub fn flush_sent(&mut self, sent: bool) -> (r: Result<(), Error>)
        requires
            old(self).awaited() < u64::MAX,
        ensures
            sent <==> r is Ok,
            r matches Err(error) ==> error@ == crate::error::generic_error(
                crate::error::SourceView::RequestStreamClosed,
            ),
            final(self).offset() == old(self).offset(),
            final(self).awaited() == old(self).awaited() + (if sent {
                1int
            } else {
                0
            }),
    {
        proof {
            use_type_invariant(&*self);
        }
        request_sent(sent)?;
        self.awaited = self.awaited + 1;
        Ok(())
    }

    /// Takes in what came over the stream while a flush is under way: an
    /// answer, its end, or a failure.
    ///
    /// The protocol promises an answer to every message that looks up the
    /// state, the one that opens the stream included, and answers come in the
    /// order of these messages. So the last answer awaited belongs to the
    /// flush. It tells the size that the server confirms as persisted, or else
    /// the number of bytes sent is reported. From a server that left the
    /// opening message unanswered, a flush would await one answer too many.
    pub fn flush_received(
        &mut self,
        message: Result<Option<BidiWriteObjectResponse>, Status>,
    ) -> (step: FlushStep)
        ensures
            final(self).offset() == old(self).offset(),
            message is Ok && message->Ok_0 is Some ==> {
                &&& old(self).awaited() > 1 ==> step == FlushStep::Receive && final(self).awaited()
                    == old(self).awaited() - 1
                &&& old(self).awaited() <= 1 ==> final(self).awaited() == 0
            },
            message matches Ok(Some(response)) ==> (old(self).awaited() <= 1
                ==> match response.write_status {
                Some(WriteStatus::PersistedSize(n)) => step == FlushStep::Done(Ok(n)),
                Some(WriteStatus::Resource(_)) => step == FlushStep::Done(Ok(old(self).offset())),
                None => step == FlushStep::Done(Ok(old(self).offset())),
            }),
            match message {
                Ok(Some(response)) => {
                    &&& final(self).awaited() == awaited_after(old(self).awaited() as nat)
                    &&& match flush_step(
                        old(self).awaited() as nat,
                        old(self).offset(),
                        response,
                    ) {
                        None => step == FlushStep::Receive,
                        Some(size) => step == FlushStep::Done(Ok(size)),
                    }
                },
                Ok(None) => {
                    &&& step matches FlushStep::Done(Err(error))
                    &&& error@ == crate::error::generic_error(
                        crate::error::SourceView::Message(CLOSED_DURING_FLUSH@),
                    )
                    &&& final(self).awaited() == old(self).awaited()
                },
                Err(status) => {
                    &&& step matches FlushStep::Done(Err(error))
                    &&& error@ == crate::error::grpc_error(status@, FLUSH@)
                    &&& final(self).awaited() == old(self).awaited()
                },
            },
    {
        proof {
            use_type_invariant(&*self);
        }
        match message {
            Ok(Some(response)) => if self.awaited > 1 {
                self.awaited = self.awaited - 1;
                FlushStep::Receive
            } else {
                self.awaited = 0;
                match response.write_status {
                    Some(WriteStatus::PersistedSize(size)) => FlushStep::Done(Ok(size)),
                    Some(WriteStatus::Resource(_)) => FlushStep::Done(Ok(self.write_offset)),
                    None => FlushStep::Done(Ok(self.write_offset)),
                }
            },
            Ok(None) => FlushStep::Done(
                Err(generic(Source::Message(CLOSED_DURING_FLUSH.to_string()))),
            ),
            Err(status) => FlushStep::Done(Err(map_grpc_error(status, FLUSH))),
        }
    }

    /// The message that finalizes the object, and the state in which the
    /// answers to it are awaited. The writer is used up: no more writes are
    /// possible.
    pub fn finalize(self) -> (r: (BidiWriteObjectRequest, WriteResponses))
        ensures
            r.0@ == finish_message(self.offset()),
            r.0.write_offset == self.offset(),
            r.0.finish_write && !r.0.flush && !r.0.state_lookup,
            r.0.data is None && r.0.first_message is None,
            r.1.path() == FINALIZE@,
            r.1.path() == "finalize"@,
            r.1.known() == crate::write::nothing_known(),
    {
        let request = BidiWriteObjectRequest {
            write_offset: self.write_offset,
            finish_write: true,
            ..BidiWriteObjectRequest::default()
        };
        (request, WriteResponses::new(FINALIZE))
    }

    /// Pauses the append. No message is sent, so the object remains appendable
    /// and can be resumed later.
    pub fn pause(self) {
    }

    /// The number of answers awaited: one for the message that opened the
    /// stream and one for each flush, less those received.
    pub fn unanswered(&self) -> (awaited: u64)
        ensures
            awaited == self.awaited(),
    {
        self.awaited
    }

    /// The current write offset: the number of bytes sent, which are not
    /// necessarily persisted.
    pub fn write_offset(&self) -> (offset: i64)
        ensures
            offset == self.offset(),
            offset >= 0,
    {
        proof {
            use_type_invariant(self);
        }
        self.write_offset
    }
}

/// What a flush reports of the answers that it receives, where `awaited` are
/// awaited and `offset` bytes sent; none as long as its own answer is not there.
pub open spec fn flush_result(
    awaited: nat,
    offset: i64,
    answers: Seq<BidiWriteObjectResponse>,
) -> Option<i64>
    decreases answers.len(),
{
    if answers.len() == 0 {
        None
    } else {
        match flush_step(awaited, offset, answers[0]) {
            None => flush_result(awaited_after(awaited), offset, answers.skip(1)),
            Some(size) => Some(size),
        }
    }
}

/// A flush takes its answers in one by one: what it reports of an answer and of
/// those that come later is settled by that answer, or else is what the writer
/// reports of the later ones once it has taken the first one in.
pub proof fn law_flush_result_step(
    before: AppendWriter,
    after: AppendWriter,
    response: BidiWriteObjectResponse,
    later: Seq<BidiWriteObjectResponse>,
)
    requires
        after.offset() == before.offset(),
        after.awaited() == awaited_after(before.awaited() as nat),
    ensures
        flush_result(
            before.awaited() as nat,
            before.offset(),
            Seq::<BidiWriteObjectResponse>::empty(),
        ) is None,
        flush_result(before.awaited() as nat, before.offset(), seq![response] + later) == (
        match flush_step(before.awaited() as nat, before.offset(), response) {
            None => flush_result(after.awaited() as nat, after.offset(), later),
            Some(size) => Some(size),
        }),
{
    assert((seq![response] + later).skip(1) =~= later);
}

/// A flush reports the answer to its own message. The service answers in order,
/// so this is the last of the answers awaited: no earlier one is taken for it,
/// and no later one is waited for.
pub proof fn law_flush_reports_its_own_answer(
    awaited: nat,
    offset: i64,
    answers: Seq<BidiWriteObjectResponse>,
)
    requires
        awaited > 0,
    ensures
        answers.len() < awaited ==> flush_result(awaited, offset, answers) is None,
        answers.len() >= awaited ==> flush_result(awaited, offset, answers) == Some(
            confirmed_size(answers[awaited - 1], offset),
        ),
    decreases awaited,
{
    if awaited > 1 && answers.len() > 0 {
        law_flush_reports_its_own_answer((awaited - 1) as nat, offset, answers.skip(1));
    }
}

/// The offset of a writer after it has sent `chunks`, from `offset` on.
pub open spec fn offset_after(offset: int, chunks: Seq<Bytes>) -> int
    decreases chunks.len(),
{
    if chunks.len() == 0 {
        offset
    } else {
        offset_after(offset, chunks.drop_last()) + bytes_content(chunks.last()).len()
    }
}

/// The messages with which a writer sends `chunks`, from `offset` on.
pub open spec fn messages_for(offset: int, chunks: Seq<Bytes>) -> Seq<BidiWriteObjectRequestView>
    decreases chunks.len(),
{
    if chunks.len() == 0 {
        Seq::empty()
    } else {
        messages_for(offset, chunks.drop_last()).push(
            write_message(offset_after(offset, chunks.drop_last()) as i64, chunks.last()),
        )
    }
}

/// The object that results where each message's data is stored at its offset,
/// if each one starts where the object ends at that point.
pub open spec fn assembled(
    object: Seq<u8>,
    messages: Seq<BidiWriteObjectRequestView>,
) -> Option<Seq<u8>>
    decreases messages.len(),
{
    if messages.len() == 0 {
        Some(object)
    } else {
        match (assembled(object, messages.drop_last()), messages.last().data) {
            (Some(before), Some(data)) => if messages.last().write_offset == before.len() {
                Some(before + bytes_content(data.content))
            } else {
                None
            },
            _ => None,
        }
    }
}

/// The offset of a writer is the number of bytes that it has sent: after any
/// writes it has grown by the length of all their data.
pub proof fn law_offset_counts_bytes_sent(offset: int, chunks: Seq<Bytes>)
    ensures
        offset_after(offset, chunks) == offset + chunk_contents(chunks).flatten().len(),
    decreases chunks.len(),
{
    broadcast use Seq::lemma_flatten_push;

    if chunks.len() == 0 {
        assert(chunk_contents(chunks) =~= Seq::<Seq<u8>>::empty());
    } else {
        law_offset_counts_bytes_sent(offset, chunks.drop_last());
        assert(chunk_contents(chunks) =~= chunk_contents(chunks.drop_last()).push(
            bytes_content(chunks.last()),
        ));
    }
}

/// Each write continues the earlier ones: a writer that has sent `chunks` makes
/// the next message of the sequence, and moves on to where that one ends.
pub proof fn law_write_continues(writer: AppendWriter, chunks: Seq<Bytes>, data: Bytes)
    requires
        writer.offset() == offset_after(0, chunks),
    ensures
        messages_for(0, chunks.push(data)) == messages_for(0, chunks).push(
            write_message(writer.offset(), data),
        ),
        offset_after(0, chunks.push(data)) == writer.offset() + bytes_content(data).len(),
{
    assert(chunks.push(data).drop_last() =~= chunks);
}

/// The messages of writes leave no gap and no overlap: where the first one
/// starts at the end of an earlier object, what they assemble is that object
/// followed by all the data in the order in which it was written. A writer of
/// this library starts at zero, so for its own messages the earlier object is
/// the empty one.
pub proof fn law_appended_data_is_contiguous(object: Seq<u8>, chunks: Seq<Bytes>)
    requires
        object.len() + chunk_contents(chunks).flatten().len() <= i64::MAX,
    ensures
        assembled(object, messages_for(object.len() as int, chunks)) == Some(
            object + chunk_contents(chunks).flatten(),
        ),
    decreases chunks.len(),
{
    broadcast use Seq::lemma_flatten_push;

    if chunks.len() == 0 {
        assert(chunk_contents(chunks) =~= Seq::<Seq<u8>>::empty());
        assert(object + chunk_contents(chunks).flatten() =~= object);
    } else {
        let shorter = chunks.drop_last();
        let last = bytes_content(chunks.last());
        assert(chunk_contents(chunks) =~= chunk_contents(shorter).push(last));
        law_appended_data_is_contiguous(object, shorter);
        law_offset_counts_bytes_sent(object.len() as int, shorter);
        let messages = messages_for(object.len() as int, chunks);
        assert(messages.drop_last() =~= messages_for(object.len() as int, shorter));
        assert(object + chunk_contents(shorter).flatten() + last =~= object + chunk_contents(
            chunks,
        ).flatten());
    }
}

/// Where the answer to a flush confirms a persisted size, the flush reports that
/// size, however many bytes were sent; where it names none, the flush reports
/// the number of bytes sent.
pub proof fn law_flush_reports_the_confirmed_size(
    awaited: nat,
    offset: i64,
    answers: Seq<BidiWriteObjectResponse>,
    n: i64,
)
    requires
        0 < awaited <= answers.len(),
    ensures
        answers[awaited - 1].write_status == Some(WriteStatus::PersistedSize(n)) ==> flush_result(
            awaited,
            offset,
            answers,
        ) == Some(n),
        answers[awaited - 1].write_status is None ==> flush_result(awaited, offset, answers)
            == Some(offset),
        (answers[awaited - 1].write_status matches Some(WriteStatus::Resource(_))) ==> flush_result(
            awaited,
            offset,
            answers,
        ) == Some(offset),
{
    law_flush_reports_its_own_answer(awaited, offset, answers);
}

/// An answer settles a flush exactly where no earlier one is awaited, and each
/// answer leaves one less to be awaited.
pub proof fn law_one_answer_at_a_time(
    awaited: nat,
    offset: i64,
    response: BidiWriteObjectResponse,
    n: i64,
)
    ensures
        awaited > 1 ==> flush_step(awaited, offset, response) is None,
        awaited <= 1 && response.write_status == Some(WriteStatus::PersistedSize(n)) ==> flush_step(
            awaited,
            offset,
            response,
        ) == Some(n),
        awaited <= 1 ==> flush_step(awaited, offset, response) is Some,
        awaited > 0 ==> awaited_after(awaited) == awaited - 1,
        awaited_after(0) == 0,
{
}

/// The messages of a writer, field by field: each carries the offset; a write
/// carries its data and asks for nothing, a flush asks for data to be persisted
/// and for the size, and the last message ends the object.
pub proof fn law_messages_of_a_writer(request: BidiWriteObjectRequest, offset: i64, data: Bytes)
    ensures
        request@ == write_message(offset, data) ==> {
            &&& request.write_offset == offset
            &&& request.data matches Some(sent)
            &&& sent.content == data
            &&& sent.crc32c is None
            &&& request.first_message is None
            &&& !request.flush && !request.state_lookup && !request.finish_write
        },
        request@ == flush_message(offset) ==> {
            &&& request.write_offset == offset
            &&& request.flush && request.state_lookup && !request.finish_write
            &&& request.data is None && request.first_message is None
        },
        request@ == finish_message(offset) ==> {
            &&& request.write_offset == offset
            &&& request.finish_write && !request.flush && !request.state_lookup
            &&& request.data is None && request.first_message is None
        },
{
}

/// The messages with which chunks are sent: one for each chunk, with that chunk
/// as its data, at the offset that all chunks before it add up to.
pub proof fn law_each_chunk_is_sent_in_its_place(offset: int, chunks: Seq<Bytes>, k: int)
    requires
        0 <= k < chunks.len(),
        0 <= offset,
        offset + chunk_contents(chunks.take(k)).flatten().len() <= i64::MAX,
    ensures
        messages_for(offset, chunks).len() == chunks.len(),
        messages_for(offset, chunks)[k].write_offset == offset + chunk_contents(
            chunks.take(k),
        ).flatten().len(),
        messages_for(offset, chunks)[k].data == Some(
            ChecksummedData { content: chunks[k], crc32c: None },
        ),
    decreases chunks.len(),
{
    lemma_one_message_per_chunk(offset, chunks.drop_last());
    if k == chunks.len() - 1 {
        assert(chunks.take(k) =~= chunks.drop_last());
        law_offset_counts_bytes_sent(offset, chunks.drop_last());
    } else {
        assert(chunks.drop_last().take(k) =~= chunks.take(k));
        law_each_chunk_is_sent_in_its_place(offset, chunks.drop_last(), k);
    }
}

/// There is one message for each chunk.
proof fn lemma_one_message_per_chunk(offset: int, chunks: Seq<Bytes>)
    ensures
        messages_for(offset, chunks).len() == chunks.len(),
    decreases chunks.len(),
{
    if chunks.len() > 0 {
        lemma_one_message_per_chunk(offset, chunks.drop_last());
    }
}

} // verus!
