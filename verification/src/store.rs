//! The object store: whole-object writes, range reads and appends.
use std::ops::Range;
use std::sync::Arc;

use vstd::prelude::*;

use crate::client::{AppendCall, Call, GrpcStorageClient, PutCall, PutOptions, DEFAULT_GRPC_ENDPOINT};
use crate::error::{map_grpc_error, Error, Status};
use crate::object::{ObjectMeta, Path};
use crate::payload::PutPayload;
use crate::proto::{ReadObjectRequest, ReadObjectResponse};
use crate::read::{open_object, ByteStream, OpenedObject};

verus! {

/// The store for what needs no gRPC: deleting, listing, copying and multipart
/// uploads. What carries these out, and what the credentials are, is left to
/// the caller.
#[derive(Debug)]
pub struct GoogleCloudStorage<S, C> {
    pub bucket_name: String,
    pub credentials: Arc<C>,
    pub http: Arc<S>,
}

impl<S, C> GoogleCloudStorage<S, C> {
    /// The name of the bucket.
    pub fn bucket_name(&self) -> (name: &str)
        ensures
            name@ == self.bucket_name@,
    {
        self.bucket_name.as_str()
    }

    /// The credentials.
    pub fn credentials(&self) -> (credentials: &Arc<C>)
        ensures
            *credentials == self.credentials,
    {
        &self.credentials
    }
}

/// An object store backed by a zonal bucket of Google Cloud Storage.
#[derive(Debug)]
pub struct GoogleCloudStorageRapid<S, C> {
    pub inner: GoogleCloudStorage<S, C>,
    pub grpc_client: Arc<GrpcStorageClient<C>>,
}

impl<S, C> Clone for GoogleCloudStorage<S, C> {
    fn clone(&self) -> (store: GoogleCloudStorage<S, C>)
        ensures
            store == *self,
    {
        GoogleCloudStorage {
            bucket_name: self.bucket_name.clone(),
            credentials: self.credentials.clone(),
            http: self.http.clone(),
        }
    }
}

impl<S, C> Clone for GoogleCloudStorageRapid<S, C> {
    fn clone(&self) -> (store: GoogleCloudStorageRapid<S, C>)
        ensures
            store == *self,
    {
        GoogleCloudStorageRapid {
            inner: self.inner.clone(),
            grpc_client: self.grpc_client.clone(),
        }
    }
}

/// Which part of an object is to be read.
#[derive(Debug, PartialEq)]
pub enum GetRange {
    /// The bytes from the start of the range up to its end.
    Bounded(Range<u64>),
    /// All bytes from the given offset on.
    Offset(u64),
    /// The given number of bytes at the end.
    Suffix(u64),
}

/// How an object is to be read.
#[derive(Debug, PartialEq)]
pub struct GetOptions {
    pub range: Option<GetRange>,
}

/// The attributes of an object, such as its content type. A read reports none.
#[derive(Debug, PartialEq)]
pub struct Attributes {
    pub entries: Vec<(String, String)>,
}

impl Default for Attributes {
    /// No attributes.
    fn default() -> (attributes: Attributes)
        ensures
            attributes.entries@.len() == 0,
    {
        Attributes { entries: Vec::new() }
    }
}

/// An object that is ready to be read.
#[derive(Debug)]
pub struct GetResult {
    pub meta: ObjectMeta,
    /// The range of the object that is returned.
    pub range: Range<u64>,
    pub stream: ByteStream,
    pub attributes: Attributes,
}

/// A read that is ready to be sent, and the state in which its first answer is
/// awaited.
#[derive(Debug)]
pub struct GetCall {
    pub call: Call<ReadObjectRequest>,
    pub pending: PendingGet,
}

/// A read whose request is on its way.
#[derive(Debug, PartialEq)]
pub struct PendingGet {
    pub location: Path,
    /// Where the returned range starts.
    pub range_start: u64,
    /// How many bytes were asked for; zero stands for all that follow.
    pub read_limit: i64,
}

/// A read of which the first answer has been received.
#[derive(Debug)]
pub struct OpenedGet {
    pub object: OpenedObject,
    pub range_start: u64,
    pub read_limit: i64,
}

/// An unsigned number taken as a signed one of the same 64 bits.
pub open spec fn signed(n: int) -> int {
    if n <= i64::MAX {
        n
    } else {
        n - 0x1_0000_0000_0000_0000
    }
}

/// The offset and the limit with which a range is asked for. The end of an
/// object cannot be asked for without knowing its size, so the whole object is
/// asked for instead.
pub open spec fn read_window(range: Option<GetRange>) -> (int, int) {
    match range {
        Some(GetRange::Bounded(range)) => (
            signed(range.start as int),
            signed(range.end - range.start),
        ),
        Some(GetRange::Offset(offset)) => (signed(offset as int), 0),
        Some(GetRange::Suffix(_)) => (0, 0),
        None => (0, 0),
    }
}

/// Where the range starts that is returned for a read from `offset` on.
pub open spec fn window_start(offset: int) -> int {
    if offset >= 0 {
        offset
    } else {
        0
    }
}

/// Where the range ends that is returned for a read of `limit` bytes, from
/// `start` on, of an object of the given size.
pub open spec fn window_end(start: int, limit: int, total_size: int) -> int {
    if limit > 0 && start + limit < total_size {
        start + limit
    } else {
        total_size
    }
}

/// The metadata of a prepared read, or the reason why it was not prepared.
pub open spec fn authorization_of_get(r: Result<GetCall, Error>) -> Result<
    tonic::metadata::MetadataMap,
    Error,
> {
    match r {
        Ok(get) => Ok(get.call.metadata),
        Err(error) => Err(error),
    }
}

/// The 64 bits of an unsigned number as a signed one.
fn to_signed(n: u64) -> (s: i64)
    ensures
        s == signed(n as int),
{
    proof {
        assert((n as i64) as int == (if n <= 0x7fff_ffff_ffff_ffff {
            n as int
        } else {
            n - 0x1_0000_0000_0000_0000
        })) by (bit_vector);
    }
    n as i64
}

impl PendingGet {
    /// Takes note of whether the server accepted the call, and hands on the
    /// stream of answers if it did.
    pub fn opened<S>(&self, opened: Result<S, Status>) -> (r: Result<S, Error>)
        ensures
            match opened {
                Ok(stream) => r == Ok::<S, Error>(stream),
                Err(status) => r matches Err(error) && error@ == crate::error::grpc_error(
                    status@,
                    self.location@,
                ),
            },
    {
        match opened {
            Ok(stream) => Ok(stream),
            Err(status) => Err(map_grpc_error(status, self.location.as_str())),
        }
    }

    /// Takes in the first answer to a read, the end of the stream, or its
    /// failure.
    pub fn received(
        self,
        message: Result<Option<ReadObjectResponse>, Status>,
    ) -> (r: Result<OpenedGet, Error>)
        ensures
            crate::read::is_opened(self.location@, message, opened_object(r)),
            message matches Ok(Some(response)) ==> (r is Ok <==> response.metadata is Some),
            r matches Ok(opened) ==> opened.range_start == self.range_start && opened.read_limit
                == self.read_limit,
    {
        match open_object(&self.location, message) {
            Ok(object) => Ok(OpenedGet {
                object,
                range_start: self.range_start,
                read_limit: self.read_limit,
            }),
            Err(error) => Err(error),
        }
    }
}

/// The object of an opened read, or the reason why it was not opened.
pub open spec fn opened_object(r: Result<OpenedGet, Error>) -> Result<OpenedObject, Error> {
    match r {
        Ok(opened) => Ok(opened.object),
        Err(error) => Err(error),
    }
}

impl OpenedGet {
    /// The object as it is returned, where `checked` tells whether its
    /// metadata meets the conditions of the read.
    pub fn finish(self, checked: Result<(), Error>) -> (r: Result<GetResult, Error>)
        ensures
            match checked {
                Ok(()) => {
                    &&& r matches Ok(result)
                    &&& result.meta == self.object.meta
                    &&& result.stream == self.object.stream
                    &&& result.attributes.entries@.len() == 0
                    &&& result.range.start == self.range_start
                    &&& result.range.end == window_end(
                        self.range_start as int,
                        self.read_limit as int,
                        self.object.total_size as int,
                    )
                    &&& self.read_limit > 0 && self.range_start + self.read_limit
                        < self.object.total_size ==> result.range.end == self.range_start
                        + self.read_limit
                    &&& self.read_limit <= 0 || self.range_start + self.read_limit
                        >= self.object.total_size ==> result.range.end == self.object.total_size
                },
                Err(error) => r == Err::<GetResult, Error>(error),
            },
    {
        match checked {
            Ok(()) => {
                let total_size: u64 = self.object.total_size;
                let range_end: u64 = if self.read_limit > 0 && self.range_start < total_size
                    && (self.read_limit as u64) < total_size - self.range_start {
                    self.range_start + self.read_limit as u64
                } else {
                    total_size
                };
                Ok(GetResult {
                    meta: self.object.meta,
                    range: self.range_start..range_end,
                    stream: self.object.stream,
                    attributes: Attributes::default(),
                })
            },
            Err(error) => Err(error),
        }
    }
}

impl<S, C> GoogleCloudStorageRapid<S, C> {
    /// The store on top of `inner`, which reaches the service at `endpoint` or
    /// else at the default endpoint.
    pub fn from_inner(inner: GoogleCloudStorage<S, C>, endpoint: Option<String>) -> (r: Result<
        GoogleCloudStorageRapid<S, C>,
        Error,
    >)
        ensures
            is_store_of(inner, endpoint_text(endpoint), r),
    {
        let credentials = inner.credentials().clone();
        let bucket: String = inner.bucket_name().to_string();
        let client = match &endpoint {
            Some(endpoint) => GrpcStorageClient::new(endpoint.as_str(), credentials, bucket),
            None => GrpcStorageClient::new(DEFAULT_GRPC_ENDPOINT, credentials, bucket),
        };
        match client {
            Ok(client) => Ok(GoogleCloudStorageRapid { inner, grpc_client: Arc::new(client) }),
            Err(error) => Err(error),
        }
    }

    /// The name of the store for people to read.
    pub fn display(&self) -> (name: String)
        ensures
            name@ == DISPLAY_START@ + self.inner.bucket_name@ + DISPLAY_END@,
            name@ == "GoogleCloudStorageRapid("@ + self.inner.bucket_name@ + ")"@,
    {
        let mut name: String = DISPLAY_START.to_string();
        name.append(self.inner.bucket_name());
        name.append(DISPLAY_END);
        name
    }

    /// Writes `payload` as a complete object at `location`.
    pub fn put_opts(
        &self,
        location: &Path,
        payload: &PutPayload,
        opts: &PutOptions,
        token: Result<String, Error>,
    ) -> (r: Result<PutCall, Error>)
        requires
            payload@.len() <= isize::MAX,
        ensures
            crate::client::is_authorization(token, crate::client::authorization_of_put(r)),
            r matches Ok(put) ==> {
                &&& put.call.request@.data matches Some(data)
                &&& crate::payload::bytes_content(data.content) == payload@
                &&& put.call.request@ == crate::client::put_message(
                    self.grpc_client.bucket@,
                    location@,
                    data.content,
                    opts.mode,
                )
                &&& put.responses.path() == location@
                &&& put.responses.known() == crate::write::nothing_known()
            },
    {
        self.grpc_client.put(location, payload.collect(), opts, token)
    }

    /// Reads the object at `location`.
    pub fn get_opts(
        &self,
        location: &Path,
        options: &GetOptions,
        token: Result<String, Error>,
    ) -> (r: Result<GetCall, Error>)
        requires
            options.range matches Some(GetRange::Bounded(range)) ==> range.start <= range.end,
        ensures
            crate::client::is_authorization(token, authorization_of_get(r)),
            r matches Ok(get) ==> {
                let (offset, limit) = read_window(options.range);
                &&& get.call.request@ == crate::client::read_message(
                    self.grpc_client.bucket@,
                    location@,
                    offset as i64,
                    limit as i64,
                )
                &&& get.pending.location@ == location@
                &&& get.pending.range_start == window_start(offset)
                &&& get.pending.read_limit == limit
            },
            r matches Ok(get) ==> {
                &&& get.call.request.bucket@ == "projects/_/buckets/"@ + self.grpc_client.bucket@
                &&& get.call.request.object@ == location@
                &&& get.pending.read_limit == get.call.request.read_limit
                &&& get.call.request.read_offset >= 0 ==> get.pending.range_start
                    == get.call.request.read_offset
                &&& get.call.request.read_offset < 0 ==> get.pending.range_start == 0
                &&& match options.range {
                    Some(GetRange::Bounded(range)) => {
                        &&& range.start <= i64::MAX ==> get.call.request.read_offset == range.start
                        &&& range.start > i64::MAX ==> get.call.request.read_offset == range.start
                            - 0x1_0000_0000_0000_0000
                        &&& range.end - range.start <= i64::MAX ==> get.call.request.read_limit
                            == range.end - range.start
                        &&& range.end - range.start > i64::MAX ==> get.call.request.read_limit
                            == range.end - range.start - 0x1_0000_0000_0000_0000
                    },
                    Some(GetRange::Offset(start)) => {
                        &&& start <= i64::MAX ==> get.call.request.read_offset == start
                        &&& start > i64::MAX ==> get.call.request.read_offset == start
                            - 0x1_0000_0000_0000_0000
                        &&& get.call.request.read_limit == 0
                    },
                    Some(GetRange::Suffix(_)) => get.call.request.read_offset == 0
                        && get.call.request.read_limit == 0,
                    None => get.call.request.read_offset == 0 && get.call.request.read_limit == 0,
                }
            },
    {
        let (read_offset, read_limit): (i64, i64) = match &options.range {
            Some(GetRange::Bounded(range)) => (
                to_signed(range.start),
                to_signed(range.end - range.start),
            ),
            Some(GetRange::Offset(offset)) => (to_signed(*offset), 0),
            Some(GetRange::Suffix(_)) => (0, 0),
            None => (0, 0),
        };
        let range_start: u64 = if read_offset >= 0 {
            read_offset as u64
        } else {
            0
        };
        match self.grpc_client.get(location, read_offset, read_limit, token) {
            Ok(call) => Ok(GetCall {
                call,
                pending: PendingGet { location: location.clone(), range_start, read_limit },
            }),
            Err(error) => Err(error),
        }
    }
}

/// A store that supports appendable objects: objects that are written to
/// incrementally, flushed, paused, resumed and finalized.
pub trait AppendableStore {
    /// The bucket whose objects the store holds.
    spec fn bucket(&self) -> Seq<char>;

    /// Opens a new appendable object at `location`.
    fn start_append(&self, location: &Path, token: Result<String, Error>) -> (r: Result<
        AppendCall,
        Error,
    >)
        ensures
            crate::client::is_authorization(token, crate::client::authorization_of_append(r)),
            r matches Ok(append) ==> {
                &&& append.call.request@ == crate::client::start_message(self.bucket(), location@)
                &&& append.method == crate::transport::parsed_path(
                    crate::client::BIDI_WRITE_OBJECT@,
                )
                &&& append.pending.location@ == location@
            },
    ;

    /// Resumes appending to the given generation of the appendable object at
    /// `location`.
    fn resume_append(
        &self,
        location: &Path,
        generation: i64,
        token: Result<String, Error>,
    ) -> (r: Result<AppendCall, Error>)
        ensures
            crate::client::is_authorization(token, crate::client::authorization_of_append(r)),
            r matches Ok(append) ==> {
                &&& append.call.request@ == crate::client::resume_message(
                    self.bucket(),
                    location@,
                    generation,
                )
                &&& append.method == crate::transport::parsed_path(
                    crate::client::BIDI_WRITE_OBJECT@,
                )
                &&& append.pending.location@ == location@
            },
    ;

    /// Reads the object at `location` from `offset` on. The object may still be
    /// appended to by someone else.
    fn tail_read(&self, location: &Path, offset: u64, token: Result<String, Error>) -> (r: Result<
        GetCall,
        Error,
    >)
        ensures
            crate::client::is_authorization(token, authorization_of_get(r)),
            r matches Ok(get) ==> {
                &&& get.call.request@ == crate::client::read_message(
                    self.bucket(),
                    location@,
                    signed(offset as int) as i64,
                    0,
                )
                &&& get.pending.location@ == location@
                &&& get.pending.range_start == offset
                &&& get.pending.read_limit == 0
                &&& get.call.request.bucket@ == "projects/_/buckets/"@ + self.bucket()
                &&& get.call.request.object@ == location@
                &&& offset <= i64::MAX ==> get.call.request.read_offset == offset
                &&& offset > i64::MAX ==> get.call.request.read_offset == offset
                    - 0x1_0000_0000_0000_0000
                &&& get.call.request.read_limit == 0
            },
    ;
}

impl<S, C> AppendableStore for GoogleCloudStorageRapid<S, C> {
    open spec fn bucket(&self) -> Seq<char> {
        self.grpc_client.bucket@
    }

    fn start_append(&self, location: &Path, token: Result<String, Error>) -> (r: Result<
        AppendCall,
        Error,
    >) {
        self.grpc_client.start_append(location, token)
    }

    fn resume_append(
        &self,
        location: &Path,
        generation: i64,
        token: Result<String, Error>,
    ) -> (r: Result<AppendCall, Error>) {
        self.grpc_client.resume_append(location, generation, token)
    }

    fn tail_read(&self, location: &Path, offset: u64, token: Result<String, Error>) -> (r: Result<
        GetCall,
        Error,
    >) {
        match self.grpc_client.get(location, to_signed(offset), 0, token) {
            Ok(call) => Ok(GetCall {
                call,
                pending: PendingGet {
                    location: location.clone(),
                    range_start: offset,
                    read_limit: 0,
                },
            }),
            Err(error) => Err(error),
        }
    }
}

/// What comes before the bucket in the name of a store.
pub const DISPLAY_START: &'static str = "GoogleCloudStorageRapid(";

/// What comes after the bucket in the name of a store.
pub const DISPLAY_END: &'static str = ")";

/// The endpoint that is used: the configured one, or else the default.
pub open spec fn endpoint_text(endpoint: Option<String>) -> Seq<char> {
    match endpoint {
        Some(endpoint) => endpoint@,
        None => DEFAULT_GRPC_ENDPOINT@,
    }
}

/// Whether `r` is the store on top of `inner` that reaches the service at
/// `endpoint`, or the reason why there is none.
pub open spec fn is_store_of<S, C>(
    inner: GoogleCloudStorage<S, C>,
    endpoint: Seq<char>,
    r: Result<GoogleCloudStorageRapid<S, C>, Error>,
) -> bool {
    match crate::transport::endpoint_failure(endpoint) {
        None => {
            &&& r matches Ok(store)
            &&& store.inner == inner
            &&& crate::transport::is_endpoint_of(endpoint, store.grpc_client.endpoint)
            &&& store.grpc_client.credentials == inner.credentials
            &&& store.grpc_client.bucket@ == inner.bucket_name@
        },
        Some(failure) => r matches Err(error) && error@ == crate::error::generic_error(
            crate::error::SourceView::Transport(failure),
        ),
    }
}

/// A range that lies within the object, and is not empty, is returned as it
/// was asked for.
pub proof fn law_bounded_range_is_returned(range: Range<u64>, total_size: u64)
    requires
        range.start < range.end <= total_size <= i64::MAX,
    ensures
        ({
            let (offset, limit) = read_window(Some(GetRange::Bounded(range)));
            &&& window_start(offset) == range.start
            &&& window_end(window_start(offset), limit, total_size as int) == range.end
        }),
{
}

/// A read from an offset on is returned up to the end of the object.
pub proof fn law_offset_range_runs_to_the_end(offset: u64, total_size: u64)
    requires
        offset <= i64::MAX,
    ensures
        ({
            let (read_offset, limit) = read_window(Some(GetRange::Offset(offset)));
            &&& window_start(read_offset) == offset
            &&& window_end(window_start(read_offset), limit, total_size as int) == total_size
        }),
{
}

/// A read of the end of an object, and one without a range, return the whole
/// object.
pub proof fn law_suffix_and_no_range_return_everything(suffix: u64, total_size: u64)
    ensures
        read_window(Some(GetRange::Suffix(suffix))) == read_window(None),
        ({
            let (offset, limit) = read_window(None);
            &&& window_start(offset) == 0
            &&& window_end(window_start(offset), limit, total_size as int) == total_size
        }),
{
}

/// The range that is returned never exceeds the object, nor what was asked for.
pub proof fn law_returned_range_is_within_the_object(start: u64, limit: i64, total_size: u64)
    ensures
        window_end(start as int, limit as int, total_size as int) <= total_size,
        limit > 0 ==> window_end(start as int, limit as int, total_size as int) - start <= limit,
        start <= total_size && limit >= 0 ==> start <= window_end(
            start as int,
            limit as int,
            total_size as int,
        ),
{
}

/// The bytes of an object that a read of `limit` bytes from `offset` on asks
/// for, where a limit of zero stands for all that follow.
pub open spec fn requested_bytes(object: Seq<u8>, offset: int, limit: int) -> Seq<u8>
    recommends
        0 <= offset <= object.len(),
{
    let rest = object.skip(offset);
    if 0 < limit < rest.len() {
        rest.take(limit)
    } else {
        rest
    }
}

/// The range that is reported is the range that is delivered: where the
/// messages carry the bytes that were asked for, the reader gets exactly the
/// bytes of the object in the reported range.
pub proof fn law_reported_range_is_delivered(
    object: Seq<u8>,
    offset: int,
    limit: int,
    messages: Seq<ReadObjectResponse>,
)
    requires
        0 <= offset <= object.len(),
        limit >= 0,
        crate::read::message_bytes(messages).flatten() == requested_bytes(object, offset, limit),
    ensures
        crate::payload::chunk_contents(crate::read::delivered(messages)).flatten()
            == object.subrange(
            window_start(offset),
            window_end(window_start(offset), limit, object.len() as int),
        ),
{
    crate::read::law_reader_gets_every_byte(messages);
    assert(requested_bytes(object, offset, limit) =~= object.subrange(
        window_start(offset),
        window_end(window_start(offset), limit, object.len() as int),
    ));
}

/// Reading gives back what was put: where the messages of a read without a
/// range carry the object that the message of a put stores, the reader gets the
/// data of that put.
pub proof fn law_read_gives_back_what_was_put(
    bucket: Seq<char>,
    location: Seq<char>,
    data: bytes::Bytes,
    mode: crate::client::PutMode,
    messages: Seq<ReadObjectResponse>,
)
    requires
        crate::append::assembled(
            Seq::<u8>::empty(),
            seq![crate::client::put_message(bucket, location, data, mode)],
        ) matches Some(object) && crate::read::message_bytes(messages).flatten()
            == requested_bytes(object, read_window(None).0, read_window(None).1),
    ensures
        crate::payload::chunk_contents(crate::read::delivered(messages)).flatten()
            == crate::payload::bytes_content(data),
{
    let put = seq![crate::client::put_message(bucket, location, data, mode)];
    let object = crate::payload::bytes_content(data);
    assert(crate::append::assembled(Seq::<u8>::empty(), put.drop_last()) == Some(
        Seq::<u8>::empty(),
    ));
    assert(Seq::<u8>::empty() + object =~= object);
    crate::read::law_reader_gets_every_byte(messages);
    assert(object.skip(0) =~= object);
}

/// Reading gives back what was appended: where the messages of a read without
/// a range carry the object that the messages of a writer assemble, the reader
/// gets the chunks in the order in which they were written.
pub proof fn law_read_gives_back_what_was_appended(
    chunks: Seq<bytes::Bytes>,
    messages: Seq<ReadObjectResponse>,
)
    requires
        crate::payload::chunk_contents(chunks).flatten().len() <= i64::MAX,
        crate::append::assembled(
            Seq::<u8>::empty(),
            crate::append::messages_for(0, chunks),
        ) matches Some(object) && crate::read::message_bytes(messages).flatten()
            == requested_bytes(object, 0, 0),
    ensures
        crate::payload::chunk_contents(crate::read::delivered(messages)).flatten()
            == crate::payload::chunk_contents(chunks).flatten(),
{
    let object = crate::payload::chunk_contents(chunks).flatten();
    crate::append::law_appended_data_is_contiguous(Seq::<u8>::empty(), chunks);
    assert(Seq::<u8>::empty() + object =~= object);
    crate::read::law_reader_gets_every_byte(messages);
    assert(object.skip(0) =~= object);
}

/// A read asks for the range that it reports: for a bounded range the request
/// has its start as the offset and its length as the limit, for an offset that
/// offset and no limit, and otherwise neither; and what is reported starts at
/// the offset of the request.
pub proof fn law_request_asks_for_reported_range(
    request: ReadObjectRequest,
    bucket: Seq<char>,
    location: Seq<char>,
    range: Option<GetRange>,
)
    requires
        ({
            let (offset, limit) = read_window(range);
            request@ == crate::client::read_message(bucket, location, offset as i64, limit as i64)
        }),
    ensures
        request.bucket@ == "projects/_/buckets/"@ + bucket,
        request.object@ == location,
        range matches Some(GetRange::Bounded(bounds)) ==> (bounds.start <= bounds.end <= i64::MAX
            ==> {
            &&& request.read_offset == bounds.start
            &&& request.read_limit == bounds.end - bounds.start
            &&& window_start(read_window(range).0) == bounds.start
            &&& read_window(range).1 == bounds.end - bounds.start
        }),
        range matches Some(GetRange::Offset(start)) ==> (start <= i64::MAX ==> {
            &&& request.read_offset == start
            &&& request.read_limit == 0
            &&& window_start(read_window(range).0) == start
            &&& read_window(range).1 == 0
        }),
        range is None || (range matches Some(GetRange::Suffix(_))) ==> {
            &&& request.read_offset == 0
            &&& request.read_limit == 0
            &&& window_start(read_window(range).0) == 0
            &&& read_window(range).1 == 0
        },
{
}

/// A tail read asks for everything from its offset on.
pub proof fn law_tail_read_asks_from_its_offset(
    request: ReadObjectRequest,
    bucket: Seq<char>,
    location: Seq<char>,
    offset: u64,
)
    requires
        offset <= i64::MAX,
        request@ == crate::client::read_message(
            bucket,
            location,
            signed(offset as int) as i64,
            0,
        ),
    ensures
        request.read_offset == offset,
        request.read_limit == 0,
        request.object@ == location,
        request.bucket@ == "projects/_/buckets/"@ + bucket,
{
}

/// How the reported range comes of a window: it starts at the offset, or at the
/// beginning where that is negative, and ends where the limit or the object
/// does, whichever comes first; without a limit it ends with the object.
pub proof fn law_window_is_cut_at_the_end(offset: i64, limit: i64, start: u64, total_size: u64)
    ensures
        offset >= 0 ==> window_start(offset as int) == offset,
        offset < 0 ==> window_start(offset as int) == 0,
        limit > 0 && start + limit <= total_size ==> window_end(
            start as int,
            limit as int,
            total_size as int,
        ) == start + limit,
        limit > 0 && start + limit > total_size ==> window_end(
            start as int,
            limit as int,
            total_size as int,
        ) == total_size,
        limit <= 0 ==> window_end(start as int, limit as int, total_size as int) == total_size,
{
}

/// The reader of a range gets the bytes of that range, one for one: where the
/// messages carry the bytes that the request names, byte `i` of what is
/// delivered is the byte at `start + i` of the object.
pub proof fn law_range_is_delivered_byte_for_byte(
    object: Seq<u8>,
    request: ReadObjectRequest,
    bucket: Seq<char>,
    location: Seq<char>,
    bounds: Range<u64>,
    messages: Seq<ReadObjectResponse>,
)
    requires
        bounds.start < bounds.end <= object.len() <= i64::MAX,
        ({
            let (offset, limit) = read_window(Some(GetRange::Bounded(bounds)));
            request@ == crate::client::read_message(bucket, location, offset as i64, limit as i64)
        }),
        Seq::new(
            messages.len(),
            |i: int|
                match messages[i].checksummed_data {
                    Some(data) => crate::payload::bytes_content(data.content),
                    None => Seq::empty(),
                },
        ).flatten() == object.subrange(
            request.read_offset as int,
            request.read_offset + request.read_limit,
        ),
    ensures
        ({
            let bytes = Seq::new(
                crate::read::delivered(messages).len(),
                |i: int| crate::payload::bytes_content(crate::read::delivered(messages)[i]),
            ).flatten();
            &&& bytes.len() == bounds.end - bounds.start
            &&& forall|i: int|
                0 <= i < bounds.end - bounds.start ==> #[trigger] bytes[i] == object[bounds.start
                    + i]
        }),
{
    let held = Seq::new(
        messages.len(),
        |i: int|
            match messages[i].checksummed_data {
                Some(data) => crate::payload::bytes_content(data.content),
                None => Seq::empty(),
            },
    );
    assert(held =~= crate::read::message_bytes(messages));
    let chunks = crate::read::delivered(messages);
    assert(Seq::new(chunks.len(), |i: int| crate::payload::bytes_content(chunks[i]))
        =~= crate::payload::chunk_contents(chunks));
    crate::read::law_reader_gets_every_byte(messages);
}

/// What a store is built from: it keeps the inner store, takes its bucket and
/// credentials over, and reaches the service over TLS at the endpoint; where
/// the endpoint cannot be used, the reason is reported and nothing is built.
pub proof fn law_store_is_built_on_inner<S, C>(
    inner: GoogleCloudStorage<S, C>,
    endpoint: Seq<char>,
    r: Result<GoogleCloudStorageRapid<S, C>, Error>,
)
    requires
        is_store_of(inner, endpoint, r),
    ensures
        r matches Ok(store) ==> {
            &&& store.inner == inner
            &&& store.grpc_client.bucket@ == inner.bucket_name@
            &&& store.bucket() == inner.bucket_name@
            &&& store.grpc_client.credentials == inner.credentials
            &&& crate::transport::has_tls(store.grpc_client.endpoint)
            &&& crate::transport::parsed_endpoint(endpoint) matches Ok(parsed)
            &&& crate::transport::plain_endpoint(store.grpc_client.endpoint)
                == crate::transport::plain_endpoint(parsed)
        },
        match crate::transport::parsed_endpoint(endpoint) {
            Ok(parsed) => match crate::transport::tls_failure(parsed) {
                None => r is Ok,
                Some(failure) => {
                    &&& r matches Err(
                        Error::Generic { store, source: crate::error::Source::Transport(kept) },
                    )
                    &&& store@ == "GCSRapid"@
                    &&& kept == failure
                },
            },
            Err(failure) => {
                &&& r matches Err(
                    Error::Generic { store, source: crate::error::Source::Transport(kept) },
                )
                &&& store@ == "GCSRapid"@
                &&& kept == failure
            },
        },
{
}

/// The endpoint is the configured one wherever one is configured.
pub proof fn law_configured_endpoint_is_used(endpoint: Option<String>)
    ensures
        endpoint matches Some(text) ==> endpoint_text(endpoint) == text@,
        endpoint is None ==> endpoint_text(endpoint) == "https://storage.googleapis.com"@,
{
}

/// What authorizes a prepared read is the metadata that it is sent with, and an
/// opened read holds the object that its first message gave; where either
/// failed, the reason is the error that is returned.
pub proof fn law_read_is_authorized_and_opened(
    get: Result<GetCall, Error>,
    opened: Result<OpenedGet, Error>,
)
    ensures
        get matches Ok(sent) ==> authorization_of_get(get) == Ok::<
            tonic::metadata::MetadataMap,
            Error,
        >(sent.call.metadata),
        get matches Err(error) ==> authorization_of_get(get) == Err::<
            tonic::metadata::MetadataMap,
            Error,
        >(error),
        opened matches Ok(read) ==> opened_object(opened) == Ok::<OpenedObject, Error>(read.object),
        opened matches Err(error) ==> opened_object(opened) == Err::<OpenedObject, Error>(error),
{
}

} // verus!
