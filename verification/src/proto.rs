//! The messages of the Storage v2 protocol, with the fields that the store
//! writes or reads. A field that is left out has its default value.
use bytes::Bytes;
use vstd::prelude::*;

use crate::time::Timestamp;

verus! {

/// An object of a bucket.
#[derive(Debug, PartialEq)]
pub struct Object {
    pub name: String,
    pub bucket: String,
    pub etag: String,
    pub generation: i64,
    pub size: i64,
    pub create_time: Option<Timestamp>,
    pub update_time: Option<Timestamp>,
}

/// A piece of an object's data.
#[derive(Debug, PartialEq)]
pub struct ChecksummedData {
    pub content: Bytes,
    pub crc32c: Option<u32>,
}

/// What object is to be written, and under which conditions.
#[derive(Debug, PartialEq)]
pub struct WriteObjectSpec {
    pub resource: Option<Object>,
    pub predefined_acl: String,
    pub if_generation_match: Option<i64>,
    pub if_generation_not_match: Option<i64>,
    pub if_metageneration_match: Option<i64>,
    pub if_metageneration_not_match: Option<i64>,
    pub object_size: Option<i64>,
    /// Whether the object remains appendable after the write completes.
    pub appendable: bool,
}

/// An attempt to append to an existing object.
#[derive(Debug, PartialEq)]
pub struct AppendObjectSpec {
    pub bucket: String,
    pub object: String,
    pub generation: i64,
    pub if_metageneration_match: Option<i64>,
    pub if_metageneration_not_match: Option<i64>,
    pub routing_token: String,
    pub write_handle: Vec<u8>,
}

/// What the first message of a write stream says of the write.
#[derive(Debug, PartialEq)]
pub enum FirstMessage {
    UploadId(String),
    WriteObjectSpec(WriteObjectSpec),
    AppendObjectSpec(AppendObjectSpec),
}

/// One message of a write stream.
#[derive(Debug, PartialEq)]
pub struct BidiWriteObjectRequest {
    pub write_offset: i64,
    pub state_lookup: bool,
    pub flush: bool,
    pub finish_write: bool,
    pub first_message: Option<FirstMessage>,
    pub data: Option<ChecksummedData>,
}

/// How far a write has come.
#[derive(Debug, PartialEq)]
pub enum WriteStatus {
    /// The number of bytes that are in durable storage.
    PersistedSize(i64),
    /// The finished object.
    Resource(Object),
}

/// One answer on a write stream.
#[derive(Debug, PartialEq)]
pub struct BidiWriteObjectResponse {
    pub write_status: Option<WriteStatus>,
}

/// The request to read a range of an object.
#[derive(Debug, PartialEq)]
pub struct ReadObjectRequest {
    pub bucket: String,
    pub object: String,
    pub read_offset: i64,
    /// The number of bytes to read; zero stands for all that follow.
    pub read_limit: i64,
}

/// One answer on a read stream.
#[derive(Debug, PartialEq)]
pub struct ReadObjectResponse {
    pub checksummed_data: Option<ChecksummedData>,
    pub metadata: Option<Object>,
}

/// The mathematical value of an [`Object`].
pub struct ObjectView {
    pub name: Seq<char>,
    pub bucket: Seq<char>,
    pub etag: Seq<char>,
    pub generation: i64,
    pub size: i64,
    pub create_time: Option<Timestamp>,
    pub update_time: Option<Timestamp>,
}

/// The mathematical value of a [`WriteObjectSpec`].
pub struct WriteObjectSpecView {
    pub resource: Option<ObjectView>,
    pub predefined_acl: Seq<char>,
    pub if_generation_match: Option<i64>,
    pub if_generation_not_match: Option<i64>,
    pub if_metageneration_match: Option<i64>,
    pub if_metageneration_not_match: Option<i64>,
    pub object_size: Option<i64>,
    pub appendable: bool,
}

/// The mathematical value of an [`AppendObjectSpec`].
pub struct AppendObjectSpecView {
    pub bucket: Seq<char>,
    pub object: Seq<char>,
    pub generation: i64,
    pub if_metageneration_match: Option<i64>,
    pub if_metageneration_not_match: Option<i64>,
    pub routing_token: Seq<char>,
    pub write_handle: Seq<u8>,
}

/// The mathematical value of a [`FirstMessage`].
pub enum FirstMessageView {
    UploadId(Seq<char>),
    WriteObjectSpec(WriteObjectSpecView),
    AppendObjectSpec(AppendObjectSpecView),
}

/// The mathematical value of a [`BidiWriteObjectRequest`].
pub struct BidiWriteObjectRequestView {
    pub write_offset: i64,
    pub state_lookup: bool,
    pub flush: bool,
    pub finish_write: bool,
    pub first_message: Option<FirstMessageView>,
    pub data: Option<ChecksummedData>,
}

/// The mathematical value of a [`ReadObjectRequest`].
pub struct ReadObjectRequestView {
    pub bucket: Seq<char>,
    pub object: Seq<char>,
    pub read_offset: i64,
    pub read_limit: i64,
}

impl View for Object {
    type V = ObjectView;

    open spec fn view(&self) -> ObjectView {
        ObjectView {
            name: self.name@,
            bucket: self.bucket@,
            etag: self.etag@,
            generation: self.generation,
            size: self.size,
            create_time: self.create_time,
            update_time: self.update_time,
        }
    }
}

impl View for WriteObjectSpec {
    type V = WriteObjectSpecView;

    open spec fn view(&self) -> WriteObjectSpecView {
        WriteObjectSpecView {
            resource: match self.resource {
                Some(object) => Some(object@),
                None => None,
            },
            predefined_acl: self.predefined_acl@,
            if_generation_match: self.if_generation_match,
            if_generation_not_match: self.if_generation_not_match,
            if_metageneration_match: self.if_metageneration_match,
            if_metageneration_not_match: self.if_metageneration_not_match,
            object_size: self.object_size,
            appendable: self.appendable,
        }
    }
}

impl View for AppendObjectSpec {
    type V = AppendObjectSpecView;

    open spec fn view(&self) -> AppendObjectSpecView {
        AppendObjectSpecView {
            bucket: self.bucket@,
            object: self.object@,
            generation: self.generation,
            if_metageneration_match: self.if_metageneration_match,
            if_metageneration_not_match: self.if_metageneration_not_match,
            routing_token: self.routing_token@,
            write_handle: self.write_handle@,
        }
    }
}

impl View for FirstMessage {
    type V = FirstMessageView;

    open spec fn view(&self) -> FirstMessageView {
        match self {
            FirstMessage::UploadId(id) => FirstMessageView::UploadId(id@),
            FirstMessage::WriteObjectSpec(spec_) => FirstMessageView::WriteObjectSpec(spec_@),
            FirstMessage::AppendObjectSpec(spec_) => FirstMessageView::AppendObjectSpec(spec_@),
        }
    }
}

impl View for BidiWriteObjectRequest {
    type V = BidiWriteObjectRequestView;

    open spec fn view(&self) -> BidiWriteObjectRequestView {
        BidiWriteObjectRequestView {
            write_offset: self.write_offset,
            state_lookup: self.state_lookup,
            flush: self.flush,
            finish_write: self.finish_write,
            first_message: match self.first_message {
                Some(first) => Some(first@),
                None => None,
            },
            data: self.data,
        }
    }
}

impl View for ReadObjectRequest {
    type V = ReadObjectRequestView;

    open spec fn view(&self) -> ReadObjectRequestView {
        ReadObjectRequestView {
            bucket: self.bucket@,
            object: self.object@,
            read_offset: self.read_offset,
            read_limit: self.read_limit,
        }
    }
}

/// An object of which nothing but its name and its bucket is said.
pub open spec fn named_object(name: Seq<char>, bucket: Seq<char>) -> ObjectView {
    ObjectView {
        name,
        bucket,
        etag: Seq::empty(),
        generation: 0,
        size: 0,
        create_time: None,
        update_time: None,
    }
}

/// A write of the named object, without any condition.
pub open spec fn plain_write(name: Seq<char>, bucket: Seq<char>) -> WriteObjectSpecView {
    WriteObjectSpecView {
        resource: Some(named_object(name, bucket)),
        predefined_acl: Seq::empty(),
        if_generation_match: None,
        if_generation_not_match: None,
        if_metageneration_match: None,
        if_metageneration_not_match: None,
        object_size: None,
        appendable: false,
    }
}

/// A message that says nothing.
pub open spec fn blank_request() -> BidiWriteObjectRequestView {
    BidiWriteObjectRequestView {
        write_offset: 0,
        state_lookup: false,
        flush: false,
        finish_write: false,
        first_message: None,
        data: None,
    }
}

impl Object {
    /// An object of which nothing but its name and its bucket is said.
    pub fn named(name: String, bucket: String) -> (object: Object)
        ensures
            object@ == named_object(name@, bucket@),
            object.name == name,
            object.bucket == bucket,
            object.etag@.len() == 0,
            object.generation == 0,
            object.size == 0,
            object.create_time is None,
            object.update_time is None,
    {
        Object {
            name,
            bucket,
            etag: String::new(),
            generation: 0,
            size: 0,
            create_time: None,
            update_time: None,
        }
    }
}

impl WriteObjectSpec {
    /// A write of the named object, without any condition.
    pub fn plain(name: String, bucket: String) -> (write: WriteObjectSpec)
        ensures
            write@ == plain_write(name@, bucket@),
    {
        WriteObjectSpec {
            resource: Some(Object::named(name, bucket)),
            predefined_acl: String::new(),
            if_generation_match: None,
            if_generation_not_match: None,
            if_metageneration_match: None,
            if_metageneration_not_match: None,
            object_size: None,
            appendable: false,
        }
    }
}

impl Default for BidiWriteObjectRequest {
    /// A message that says nothing.
    fn default() -> (request: BidiWriteObjectRequest)
        ensures
            request@ == blank_request(),
            request.write_offset == 0,
            !request.state_lookup,
            !request.flush,
            !request.finish_write,
            request.first_message is None,
            request.data is None,
    {
        BidiWriteObjectRequest {
            write_offset: 0,
            state_lookup: false,
            flush: false,
            finish_write: false,
            first_message: None,
            data: None,
        }
    }
}

/// A write without conditions names the object and leaves everything else out.
pub proof fn law_plain_write_sets_nothing_else(
    write: WriteObjectSpec,
    name: Seq<char>,
    bucket: Seq<char>,
)
    requires
        write@ == plain_write(name, bucket),
    ensures
        ({
            &&& write.resource matches Some(object)
            &&& object.name@ == name
            &&& object.bucket@ == bucket
            &&& object.etag@.len() == 0 && object.generation == 0 && object.size == 0
            &&& object.create_time is None && object.update_time is None
        }),
        write.predefined_acl@.len() == 0,
        write.if_generation_match is None,
        write.if_generation_not_match is None,
        write.if_metageneration_match is None,
        write.if_metageneration_not_match is None,
        write.object_size is None,
        !write.appendable,
{
}

/// The mathematical value of a message is made of its fields, each unchanged.
pub proof fn law_message_value_is_its_fields(
    object: Object,
    write: WriteObjectSpec,
    append: AppendObjectSpec,
    request: BidiWriteObjectRequest,
    read: ReadObjectRequest,
)
    ensures
        object@.name == object.name@ && object@.bucket == object.bucket@ && object@.etag
            == object.etag@,
        object@.generation == object.generation && object@.size == object.size,
        object@.create_time == object.create_time && object@.update_time == object.update_time,
        write.resource matches Some(resource) ==> write@.resource == Some(resource@),
        write.resource is None ==> write@.resource is None,
        write@.predefined_acl == write.predefined_acl@,
        write@.if_generation_match == write.if_generation_match,
        write@.if_generation_not_match == write.if_generation_not_match,
        write@.if_metageneration_match == write.if_metageneration_match,
        write@.if_metageneration_not_match == write.if_metageneration_not_match,
        write@.object_size == write.object_size && write@.appendable == write.appendable,
        append@.bucket == append.bucket@ && append@.object == append.object@,
        append@.generation == append.generation,
        append@.if_metageneration_match == append.if_metageneration_match,
        append@.if_metageneration_not_match == append.if_metageneration_not_match,
        append@.routing_token == append.routing_token@ && append@.write_handle
            == append.write_handle@,
        request@.write_offset == request.write_offset && request@.data == request.data,
        request@.state_lookup == request.state_lookup && request@.flush == request.flush,
        request@.finish_write == request.finish_write,
        request.first_message is None ==> request@.first_message is None,
        request.first_message matches Some(FirstMessage::UploadId(id)) ==> request@.first_message
            == Some(FirstMessageView::UploadId(id@)),
        request.first_message matches Some(FirstMessage::WriteObjectSpec(first))
            ==> request@.first_message == Some(FirstMessageView::WriteObjectSpec(first@)),
        request.first_message matches Some(FirstMessage::AppendObjectSpec(first))
            ==> request@.first_message == Some(FirstMessageView::AppendObjectSpec(first@)),
        read@.bucket == read.bucket@ && read@.object == read.object@,
        read@.read_offset == read.read_offset && read@.read_limit == read.read_limit,
{
}

} // verus!
