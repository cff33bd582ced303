//! Reading an object: the first message with its metadata, and then its data.
use bytes::Bytes;
use vstd::prelude::*;

use crate::error::{generic, map_grpc_error, Error, Source, Status};
use crate::object::{object_to_meta, to_unsigned_size, ObjectMeta, Path};
use crate::payload::{bytes_content, chunk_contents};
use crate::proto::ReadObjectResponse;

verus! {

/// What is reported where the stream ends before its first message.
pub const EMPTY_STREAM: &'static str = "Empty response stream from ReadObject";

/// What is reported where the first message carries no metadata.
pub const NO_METADATA: &'static str = "No metadata in first ReadObject response";

/// The data of an object as it is being received. The data of the first
/// message is held back until it is asked for.
#[derive(Debug)]
pub struct ByteStream {
    pending: Option<Bytes>,
    path: String,
}

/// What to do next about the data of an object.
#[derive(Debug)]
pub enum ReadStep {
    /// Deliver a chunk, which is not empty.
    Deliver(Bytes),
    /// Receive one more message.
    Receive,
    /// Report the end of the data.
    End,
    /// Report the failure.
    Failed(Error),
}

/// The data that a message carries.
pub open spec fn message_data(message: ReadObjectResponse) -> Option<Bytes> {
    match message.checksummed_data {
        Some(data) => Some(data.content),
        None => None,
    }
}

/// The step for the data of one message: it is delivered unless it is empty.
pub open spec fn chunk_step(data: Option<Bytes>) -> ReadStep {
    match data {
        Some(bytes) => if bytes_content(bytes).len() > 0 {
            ReadStep::Deliver(bytes)
        } else {
            ReadStep::Receive
        },
        None => ReadStep::Receive,
    }
}

impl ByteStream {
    /// The data that is held back.
    pub closed spec fn pending(self) -> Option<Bytes> {
        self.pending
    }

    /// The path under which failures are reported.
    pub closed spec fn path(self) -> Seq<char> {
        self.path@
    }

    /// Asks for the next chunk. Data that was held back is delivered, unless
    /// it is empty; otherwise a message has to be received first.
    pub fn next_chunk(&mut self) -> (step: ReadStep)
        ensures
            final(self).path() == old(self).path(),
            final(self).pending() is None,
            step == chunk_step(old(self).pending()),
            match old(self).pending() {
                Some(bytes) => if bytes_content(bytes).len() > 0 {
                    step == ReadStep::Deliver(bytes)
                } else {
                    step == ReadStep::Receive
                },
                None => step == ReadStep::Receive,
            },
    {
        match self.pending.take() {
            Some(bytes) => if bytes.is_empty() {
                ReadStep::Receive
            } else {
                ReadStep::Deliver(bytes)
            },
            None => ReadStep::Receive,
        }
    }

    /// Takes in what came over the stream: a message, its end, or a failure.
    /// A message without data is passed over.
    pub fn read_next_chunk(
        &self,
        message: Result<Option<ReadObjectResponse>, Status>,
    ) -> (step: ReadStep)
        ensures
            message matches Ok(Some(response)) ==> match response.checksummed_data {
                Some(data) => if bytes_content(data.content).len() > 0 {
                    step == ReadStep::Deliver(data.content)
                } else {
                    step == ReadStep::Receive
                },
                None => step == ReadStep::Receive,
            },
            match message {
                Ok(Some(response)) => step == chunk_step(message_data(response)),
                Ok(None) => step == ReadStep::End,
                Err(status) => step matches ReadStep::Failed(error) && error@
                    == crate::error::grpc_error(status@, self.path()),
            },
    {
        match message {
            Ok(Some(response)) => match response.checksummed_data {
                Some(data) => if data.content.is_empty() {
                    ReadStep::Receive
                } else {
                    ReadStep::Deliver(data.content)
                },
                None => ReadStep::Receive,
            },
            Ok(None) => ReadStep::End,
            Err(status) => ReadStep::Failed(map_grpc_error(status, self.path.as_str())),
        }
    }
}

/// An object of which the first message has been received.
#[derive(Debug)]
pub struct OpenedObject {
    pub meta: ObjectMeta,
    pub total_size: u64,
    pub stream: ByteStream,
}

/// Whether `r` is what the first message of a read of `location` gives: the
/// object with its metadata, or the reason why there is none.
pub open spec fn is_opened(
    location: Seq<char>,
    message: Result<Option<ReadObjectResponse>, Status>,
    r: Result<OpenedObject, Error>,
) -> bool {
    match message {
        Ok(Some(response)) => match response.metadata {
            Some(object) => {
                &&& r matches Ok(opened)
                &&& opened.meta@ == crate::object::meta_of(location, object)
                &&& opened.total_size == crate::object::unsigned_size(object.size)
                &&& opened.stream.pending() == message_data(response)
                &&& opened.stream.path() == location
            },
            None => r matches Err(error) && error@ == crate::error::generic_error(
                crate::error::SourceView::Message(NO_METADATA@),
            ),
        },
        Ok(None) => r matches Err(error) && error@ == crate::error::generic_error(
            crate::error::SourceView::Message(EMPTY_STREAM@),
        ),
        Err(status) => r matches Err(error) && error@ == crate::error::grpc_error(
            status@,
            location,
        ),
    }
}

/// Takes in the first message of a read, or the failure of the call.
pub fn open_object(
    location: &Path,
    message: Result<Option<ReadObjectResponse>, Status>,
) -> (r: Result<OpenedObject, Error>)
    ensures
        is_opened(location@, message, r),
        message matches Ok(Some(response)) ==> (r matches Ok(opened)
            ==> match response.checksummed_data {
            Some(data) => opened.stream.pending() == Some(data.content),
            None => opened.stream.pending() is None,
        }),
{
    match message {
        Ok(Some(response)) => match response.metadata {
            Some(object) => {
                let meta = object_to_meta(location, &object);
                let total_size: u64 = to_unsigned_size(object.size);
                let pending = match response.checksummed_data {
                    Some(data) => Some(data.content),
                    None => None,
                };
                let stream = ByteStream { pending, path: location.as_str().to_string() };
                Ok(OpenedObject { meta, total_size, stream })
            },
            None => Err(generic(Source::Message(NO_METADATA.to_string()))),
        },
        Ok(None) => Err(generic(Source::Message(EMPTY_STREAM.to_string()))),
        Err(status) => Err(map_grpc_error(status, location.as_str())),
    }
}

/// The bytes of each message of a read, the first one at the front.
pub open spec fn message_bytes(messages: Seq<ReadObjectResponse>) -> Seq<Seq<u8>> {
    messages.map_values(
        |message: ReadObjectResponse|
            match message_data(message) {
                Some(bytes) => bytes_content(bytes),
                None => Seq::empty(),
            },
    )
}

/// The chunks that the reader of an object is delivered for the messages of a
/// read.
pub open spec fn delivered(messages: Seq<ReadObjectResponse>) -> Seq<Bytes>
    decreases messages.len(),
{
    if messages.len() == 0 {
        Seq::empty()
    } else {
        match chunk_step(message_data(messages.last())) {
            ReadStep::Deliver(bytes) => delivered(messages.drop_last()).push(bytes),
            _ => delivered(messages.drop_last()),
        }
    }
}

/// The reader gets no empty chunk, and all chunks together are the bytes of
/// all messages together: nothing is lost, repeated or reordered.
pub proof fn law_reader_gets_every_byte(messages: Seq<ReadObjectResponse>)
    ensures
        chunk_contents(delivered(messages)).flatten() == message_bytes(messages).flatten(),
        forall|i: int|
            0 <= i < delivered(messages).len() ==> bytes_content(
                #[trigger] delivered(messages)[i],
            ).len() > 0,
    decreases messages.len(),
{
    broadcast use Seq::lemma_flatten_push;

    if messages.len() == 0 {
        assert(chunk_contents(delivered(messages)) =~= message_bytes(messages));
    } else {
        let shorter = messages.drop_last();
        law_reader_gets_every_byte(shorter);
        let last = message_bytes(messages).last();
        assert(message_bytes(messages) =~= message_bytes(shorter).push(last));
        match chunk_step(message_data(messages.last())) {
            ReadStep::Deliver(bytes) => {
                assert(chunk_contents(delivered(messages)) =~= chunk_contents(
                    delivered(shorter),
                ).push(last));
            },
            _ => {
                assert(message_bytes(messages).flatten() =~= message_bytes(shorter).flatten());
            },
        }
    }
}

/// The data of a message is delivered whole: wherever a message has data that
/// is not empty, whatever its checksum and its metadata are, the reader gets
/// exactly that data, and otherwise the next message is received.
pub proof fn law_data_is_delivered_whole(message: ReadObjectResponse)
    ensures
        match message.checksummed_data {
            Some(data) => {
                &&& message_data(message) == Some(data.content)
                &&& bytes_content(data.content).len() > 0 ==> chunk_step(message_data(message))
                    == ReadStep::Deliver(data.content)
                &&& bytes_content(data.content).len() == 0 ==> chunk_step(message_data(message))
                    == ReadStep::Receive
            },
            None => chunk_step(message_data(message)) == ReadStep::Receive,
        },
{
}

/// The bytes of a read are those that its messages hold: message for message
/// the content of its data, and nothing for a message without data.
pub proof fn law_bytes_of_a_read(messages: Seq<ReadObjectResponse>)
    ensures
        message_bytes(messages).len() == messages.len(),
        forall|i: int|
            0 <= i < messages.len() && (#[trigger] messages[i]).checksummed_data is Some
                ==> message_bytes(messages)[i] == bytes_content(
                messages[i].checksummed_data->Some_0.content,
            ),
        forall|i: int|
            0 <= i < messages.len() && (#[trigger] messages[i]).checksummed_data is None
                ==> message_bytes(messages)[i].len() == 0,
{
}

/// A further message of a read adds its data behind the chunks that were
/// delivered before, unless it has none.
pub proof fn law_further_message_adds_its_data(
    messages: Seq<ReadObjectResponse>,
    message: ReadObjectResponse,
)
    ensures
        delivered(Seq::<ReadObjectResponse>::empty()).len() == 0,
        message.checksummed_data is None ==> delivered(messages.push(message)) == delivered(
            messages,
        ),
        message.checksummed_data matches Some(data) ==> {
            &&& bytes_content(data.content).len() == 0 ==> delivered(messages.push(message))
                == delivered(messages)
            &&& bytes_content(data.content).len() > 0 ==> delivered(messages.push(message))
                == delivered(messages).push(data.content)
        },
{
    assert(messages.push(message).drop_last() =~= messages);
}

/// What the first message of a read gives: with metadata, the object with the
/// metadata, size and data that the message holds; without metadata, or where
/// there is no message, an error that says so; and for a failure, the error of
/// its status on the location.
pub proof fn law_first_message_opens_the_object(
    location: Seq<char>,
    message: Result<Option<ReadObjectResponse>, Status>,
    r: Result<OpenedObject, Error>,
)
    requires
        is_opened(location, message, r),
    ensures
        match message {
            Ok(Some(response)) => match response.metadata {
                Some(object) => {
                    &&& r matches Ok(opened)
                    &&& opened.meta@ == crate::object::meta_of(location, object)
                    &&& object.size >= 0 ==> opened.total_size == object.size
                    &&& object.size < 0 ==> opened.total_size == object.size
                        + 0x1_0000_0000_0000_0000
                    &&& opened.total_size == opened.meta.size
                    &&& match response.checksummed_data {
                        Some(data) => opened.stream.pending() == Some(data.content),
                        None => opened.stream.pending() is None,
                    }
                    &&& opened.stream.path() == location
                },
                None => {
                    &&& r matches Err(Error::Generic { store, source: Source::Message(text) })
                    &&& store@ == "GCSRapid"@
                    &&& text@ == "No metadata in first ReadObject response"@
                },
            },
            Ok(None) => {
                &&& r matches Err(Error::Generic { store, source: Source::Message(text) })
                &&& store@ == "GCSRapid"@
                &&& text@ == "Empty response stream from ReadObject"@
            },
            Err(status) => r matches Err(error) && error@ == crate::error::grpc_error(
                status@,
                location,
            ),
        },
{
}

} // verus!
