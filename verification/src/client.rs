//! The client of the Storage service: the requests that it makes, with the
//! metadata that authorizes them.
use std::sync::Arc;

use bytes::Bytes;
use http::uri::PathAndQuery;
use tonic::metadata::MetadataMap;
use tonic::transport::{Endpoint, Error as TransportError};
use vstd::prelude::*;

use crate::append::AppendWriter;
use crate::error::{generic, map_grpc_error, Error, Source, Status};
use crate::object::Path;
use crate::proto::{
    AppendObjectSpec, BidiWriteObjectRequest, ChecksummedData, FirstMessage, ReadObjectRequest,
    WriteObjectSpec,
};
use crate::text::parse_i64;
use crate::transport::{insert_text, path_from_static, tls_endpoint};
use crate::write::WriteResponses;

verus! {

/// Where the service is reached unless another endpoint is configured.
pub const DEFAULT_GRPC_ENDPOINT: &'static str = "https://storage.googleapis.com";

/// The method with which objects are written.
pub const BIDI_WRITE_OBJECT: &'static str = "/google.storage.v2.Storage/BidiWriteObject";

/// The metadata key that carries the token.
pub const AUTHORIZATION: &'static str = "authorization";

/// What comes before the name of a bucket in its resource name.
pub const BUCKETS: &'static str = "projects/_/buckets/";

/// What comes before the token in the metadata.
pub const BEARER: &'static str = "Bearer ";

/// A client for the objects of one bucket. What its credentials are is left to
/// the caller.
#[derive(Debug)]
pub struct GrpcStorageClient<C> {
    pub endpoint: Endpoint,
    pub credentials: Arc<C>,
    pub bucket: String,
}

/// A request that is ready to be sent, and the metadata to send it with.
#[derive(Debug)]
pub struct Call<R> {
    pub metadata: MetadataMap,
    pub request: R,
}

/// A write that is ready to be sent, and the state in which its answers are
/// awaited.
#[derive(Debug)]
pub struct PutCall {
    pub call: Call<BidiWriteObjectRequest>,
    pub responses: WriteResponses,
}

/// A write stream that is ready to be opened: the method to call, the first
/// message to send, and the state in which the server's consent is awaited.
#[derive(Debug)]
pub struct AppendCall {
    pub call: Call<BidiWriteObjectRequest>,
    pub method: PathAndQuery,
    pub pending: PendingAppend,
}

/// A write stream that is being opened.
#[derive(Debug, PartialEq)]
pub struct PendingAppend {
    pub location: Path,
}

/// The object version that an update replaces.
#[derive(Debug, PartialEq)]
pub struct UpdateVersion {
    pub e_tag: Option<String>,
    pub version: Option<String>,
}

/// Which object a write may replace.
#[derive(Debug, PartialEq)]
pub enum PutMode {
    /// Any.
    Overwrite,
    /// None: the write fails if the object exists.
    Create,
    /// Only the given version.
    Update(UpdateVersion),
}

/// How an object is to be written.
#[derive(Debug, PartialEq)]
pub struct PutOptions {
    pub mode: PutMode,
}

/// The resource name of a bucket.
pub open spec fn bucket_resource_name(bucket: Seq<char>) -> Seq<char> {
    BUCKETS@ + bucket
}

/// The metadata entries that carry a token.
pub open spec fn authorization_entry(token: Seq<char>) -> Seq<Seq<u8>> {
    seq![vstd::utf8::encode_utf8(BEARER@ + token)]
}

/// Whether an error reports a token that no metadata value can hold.
pub open spec fn is_invalid_token_error(error: crate::error::ErrorView) -> bool {
    error matches crate::error::ErrorView::Generic { store, source } && store
        == crate::error::STORE@ && source is InvalidMetadataValue
}

/// Whether `r` is what a call is given to authorize itself: the token in the
/// metadata, or the reason why there is none.
pub open spec fn is_authorization(
    token: Result<String, Error>,
    r: Result<MetadataMap, Error>,
) -> bool {
    match token {
        Ok(token) => if crate::transport::is_metadata_text(token@) {
            r matches Ok(metadata) && crate::transport::metadata_entries(metadata)
                == Map::<Seq<char>, Seq<Seq<u8>>>::empty().insert(
                AUTHORIZATION@,
                authorization_entry(token@),
            )
        } else {
            r matches Err(error) && is_invalid_token_error(error@)
        },
        Err(error) => r == Err::<MetadataMap, Error>(error),
    }
}

/// The metadata of a prepared call, or the reason why it was not prepared.
pub open spec fn authorization_of<R>(r: Result<Call<R>, Error>) -> Result<MetadataMap, Error> {
    match r {
        Ok(call) => Ok(call.metadata),
        Err(error) => Err(error),
    }
}

/// The metadata of a prepared write, or the reason why it was not prepared.
pub open spec fn authorization_of_put(r: Result<PutCall, Error>) -> Result<MetadataMap, Error> {
    match r {
        Ok(put) => Ok(put.call.metadata),
        Err(error) => Err(error),
    }
}

/// The metadata of a prepared stream, or the reason why it was not prepared.
pub open spec fn authorization_of_append(r: Result<AppendCall, Error>) -> Result<
    MetadataMap,
    Error,
> {
    match r {
        Ok(append) => Ok(append.call.metadata),
        Err(error) => Err(error),
    }
}

/// The generation that the object to be replaced must have: zero, which stands
/// for no object, where the write must create it; the generation that the
/// version to be updated denotes, if it denotes one; and else any.
pub open spec fn required_generation(mode: PutMode) -> Option<i64> {
    match mode {
        PutMode::Create => Some(0),
        PutMode::Update(update) => match update.version {
            Some(version) => crate::text::parsed_i64(version@),
            None => None,
        },
        PutMode::Overwrite => None,
    }
}

/// The message that writes a whole object.
pub open spec fn put_message(
    bucket: Seq<char>,
    location: Seq<char>,
    payload: Bytes,
    mode: PutMode,
) -> crate::proto::BidiWriteObjectRequestView {
    let write = crate::proto::WriteObjectSpecView {
        if_generation_match: required_generation(mode),
        ..crate::proto::plain_write(location, bucket_resource_name(bucket))
    };
    crate::proto::BidiWriteObjectRequestView {
        first_message: Some(crate::proto::FirstMessageView::WriteObjectSpec(write)),
        data: Some(ChecksummedData { content: payload, crc32c: None }),
        finish_write: true,
        ..crate::proto::blank_request()
    }
}

/// The request for `limit` bytes of an object from `offset` on.
pub open spec fn read_message(
    bucket: Seq<char>,
    location: Seq<char>,
    offset: i64,
    limit: i64,
) -> crate::proto::ReadObjectRequestView {
    crate::proto::ReadObjectRequestView {
        bucket: bucket_resource_name(bucket),
        object: location,
        read_offset: offset,
        read_limit: limit,
    }
}

/// The first message of the stream that creates an appendable object.
pub open spec fn start_message(
    bucket: Seq<char>,
    location: Seq<char>,
) -> crate::proto::BidiWriteObjectRequestView {
    let write = crate::proto::WriteObjectSpecView {
        appendable: true,
        ..crate::proto::plain_write(location, bucket_resource_name(bucket))
    };
    crate::proto::BidiWriteObjectRequestView {
        first_message: Some(crate::proto::FirstMessageView::WriteObjectSpec(write)),
        state_lookup: true,
        ..crate::proto::blank_request()
    }
}

/// The first message of the stream that resumes an appendable object.
pub open spec fn resume_message(
    bucket: Seq<char>,
    location: Seq<char>,
    generation: i64,
) -> crate::proto::BidiWriteObjectRequestView {
    let append = crate::proto::AppendObjectSpecView {
        bucket: bucket_resource_name(bucket),
        object: location,
        generation,
        if_metageneration_match: None,
        if_metageneration_not_match: None,
        routing_token: Seq::empty(),
        write_handle: Seq::empty(),
    };
    crate::proto::BidiWriteObjectRequestView {
        first_message: Some(crate::proto::FirstMessageView::AppendObjectSpec(append)),
        state_lookup: true,
        ..crate::proto::blank_request()
    }
}

impl<C> GrpcStorageClient<C> {
    /// A client for the objects of `bucket`, reached at `endpoint`.
    pub fn new(endpoint: &str, credentials: Arc<C>, bucket: String) -> (r: Result<
        GrpcStorageClient<C>,
        Error,
    >)
        ensures
            match crate::transport::endpoint_failure(endpoint@) {
                None => {
                    &&& r matches Ok(client)
                    &&& crate::transport::is_endpoint_of(endpoint@, client.endpoint)
                    &&& client.credentials == credentials
                    &&& client.bucket == bucket
                },
                Some(failure) => r matches Err(error) && error@ == crate::error::generic_error(
                    crate::error::SourceView::Transport(failure),
                ),
            },
    {
        Self::with_endpoint(tls_endpoint(endpoint), credentials, bucket)
    }

    /// A client for the objects of `bucket`, where `endpoint` is what setting
    /// up the endpoint gave.
    pub fn with_endpoint(
        endpoint: Result<Endpoint, TransportError>,
        credentials: Arc<C>,
        bucket: String,
    ) -> (r: Result<GrpcStorageClient<C>, Error>)
        ensures
            match endpoint {
                Ok(endpoint) => r == Ok::<GrpcStorageClient<C>, Error>(
                    GrpcStorageClient { endpoint, credentials, bucket },
                ),
                Err(failure) => r matches Err(error) && error@ == crate::error::generic_error(
                    crate::error::SourceView::Transport(failure),
                ),
            },
    {
        match endpoint {
            Ok(endpoint) => Ok(GrpcStorageClient { endpoint, credentials, bucket }),
            Err(failure) => Err(generic(Source::Transport(failure))),
        }
    }

    /// The resource name of the bucket.
    pub fn bucket_resource(&self) -> (name: String)
        ensures
            name@ == bucket_resource_name(self.bucket@),
            name@ == "projects/_/buckets/"@ + self.bucket@,
    {
        let mut name: String = BUCKETS.to_string();
        name.append(self.bucket.as_str());
        name
    }

    /// Puts the token into the metadata of a request, in place of any token
    /// that is there. A token that no metadata value can hold is refused.
    pub fn inject_auth(metadata: &mut MetadataMap, token: &str) -> (r: Result<(), Error>)
        requires
            crate::transport::has_room(*old(metadata)),
        ensures
            r is Ok <==> crate::transport::is_metadata_text(token@),
            r is Ok ==> crate::transport::metadata_entries(*final(metadata))
                == crate::transport::metadata_entries(*old(metadata)).insert(
                "authorization"@,
                seq![vstd::utf8::encode_utf8("Bearer "@ + token@)],
            ),
            r is Ok ==> crate::transport::metadata_entries(*final(metadata))
                == crate::transport::metadata_entries(*old(metadata)).insert(
                AUTHORIZATION@,
                authorization_entry(token@),
            ),
            r matches Err(error) ==> *final(metadata) == *old(metadata) && is_invalid_token_error(
                error@,
            ),
    {
        let mut bearer: String = BEARER.to_string();
        bearer.append(token);
        proof {
            reveal_strlit("authorization");
            lemma_bearer_text(token@);
        }
        match insert_text(metadata, AUTHORIZATION, bearer.as_str()) {
            Ok(()) => Ok(()),
            Err(error) => Err(generic(Source::InvalidMetadataValue(error))),
        }
    }

    /// The metadata that authorizes a call with `token`, which is what the
    /// credentials gave.
    pub fn authorize(token: Result<String, Error>) -> (r: Result<MetadataMap, Error>)
        ensures
            is_authorization(token, r),
    {
        match token {
            Ok(token) => {
                let mut metadata = MetadataMap::new();
                match Self::inject_auth(&mut metadata, token.as_str()) {
                    Ok(()) => Ok(metadata),
                    Err(error) => Err(error),
                }
            },
            Err(error) => Err(error),
        }
    }

    /// Writes `payload` as a complete object at `location`.
    pub fn put(
        &self,
        location: &Path,
        payload: Bytes,
        opts: &PutOptions,
        token: Result<String, Error>,
    ) -> (r: Result<PutCall, Error>)
        ensures
            is_authorization(token, authorization_of_put(r)),
            r matches Ok(put) ==> {
                &&& put.call.request@ == put_message(self.bucket@, location@, payload, opts.mode)
                &&& put.call.request.data matches Some(data)
                &&& data.content == payload
                &&& put.call.request.write_offset == 0 && put.call.request.finish_write
                &&& put.call.request.first_message matches Some(FirstMessage::WriteObjectSpec(write))
                &&& write.resource matches Some(object)
                &&& object.name@ == location@
                &&& object.bucket@ == "projects/_/buckets/"@ + self.bucket@
                &&& object.etag@.len() == 0 && object.generation == 0 && object.size == 0
                &&& object.create_time is None && object.update_time is None
                &&& !write.appendable
                &&& match opts.mode {
                    PutMode::Create => write.if_generation_match == Some(0i64),
                    PutMode::Overwrite => write.if_generation_match is None,
                    PutMode::Update(update) => match update.version {
                        Some(version) => write.if_generation_match == crate::text::parsed_i64(
                            version@,
                        ),
                        None => write.if_generation_match is None,
                    },
                }
                &&& put.responses.path() == location@
                &&& put.responses.known() == crate::write::nothing_known()
            },
    {
        let metadata = match Self::authorize(token) {
            Ok(metadata) => metadata,
            Err(error) => return Err(error),
        };
        let mut write = WriteObjectSpec::plain(
            location.as_str().to_string(),
            self.bucket_resource(),
        );
        match &opts.mode {
            PutMode::Create => {
                write.if_generation_match = Some(0);
            },
            PutMode::Update(update) => {
                if let Some(version) = &update.version {
                    if let Some(generation) = parse_i64(version.as_str()) {
                        write.if_generation_match = Some(generation);
                    }
                }
            },
            PutMode::Overwrite => {},
        }
        let request = BidiWriteObjectRequest {
            first_message: Some(FirstMessage::WriteObjectSpec(write)),
            write_offset: 0,
            data: Some(ChecksummedData { content: payload, crc32c: None }),
            finish_write: true,
            ..BidiWriteObjectRequest::default()
        };
        Ok(PutCall {
            call: Call { metadata, request },
            responses: WriteResponses::new(location.as_str()),
        })
    }

    /// Reads the object at `location` from `read_offset` on; `read_limit` is
    /// the number of bytes to read, where zero stands for all that follow.
    pub fn get(
        &self,
        location: &Path,
        read_offset: i64,
        read_limit: i64,
        token: Result<String, Error>,
    ) -> (r: Result<Call<ReadObjectRequest>, Error>)
        ensures
            is_authorization(token, authorization_of(r)),
            r matches Ok(call) ==> call.request@ == read_message(
                self.bucket@,
                location@,
                read_offset,
                read_limit,
            ),
            r matches Ok(call) ==> {
                &&& call.request.bucket@ == "projects/_/buckets/"@ + self.bucket@
                &&& call.request.object@ == location@
                &&& call.request.read_offset == read_offset
                &&& call.request.read_limit == read_limit
            },
    {
        match Self::authorize(token) {
            Ok(metadata) => Ok(Call {
                metadata,
                request: ReadObjectRequest {
                    bucket: self.bucket_resource(),
                    object: location.as_str().to_string(),
                    read_offset,
                    read_limit,
                },
            }),
            Err(error) => Err(error),
        }
    }

    /// Opens a new appendable object at `location`.
    pub fn start_append(&self, location: &Path, token: Result<String, Error>) -> (r: Result<
        AppendCall,
        Error,
    >)
        ensures
            is_authorization(token, authorization_of_append(r)),
            r matches Ok(append) ==> {
                &&& append.call.request@ == start_message(self.bucket@, location@)
                &&& append.call.request.state_lookup && append.call.request.data is None
                &&& append.call.request.first_message matches Some(
                    FirstMessage::WriteObjectSpec(write),
                )
                &&& write.resource matches Some(object)
                &&& object.name@ == location@
                &&& object.bucket@ == "projects/_/buckets/"@ + self.bucket@
                &&& object.etag@.len() == 0 && object.generation == 0 && object.size == 0
                &&& object.create_time is None && object.update_time is None
                &&& write.appendable
                &&& write.if_generation_match is None
                &&& append.method == crate::transport::parsed_path(BIDI_WRITE_OBJECT@)
                &&& append.method == crate::transport::parsed_path(
                    "/google.storage.v2.Storage/BidiWriteObject"@,
                )
                &&& append.pending.location@ == location@
            },
    {
        let mut write = WriteObjectSpec::plain(
            location.as_str().to_string(),
            self.bucket_resource(),
        );
        write.appendable = true;
        let request = BidiWriteObjectRequest {
            first_message: Some(FirstMessage::WriteObjectSpec(write)),
            state_lookup: true,
            ..BidiWriteObjectRequest::default()
        };
        Self::open_append(location, request, token)
    }

    /// Resumes appending to the given generation of the appendable object at
    /// `location`.
    pub fn resume_append(
        &self,
        location: &Path,
        generation: i64,
        token: Result<String, Error>,
    ) -> (r: Result<AppendCall, Error>)
        ensures
            is_authorization(token, authorization_of_append(r)),
            r matches Ok(append) ==> {
                &&& append.call.request@ == resume_message(self.bucket@, location@, generation)
                &&& append.call.request.state_lookup && append.call.request.data is None
                &&& append.call.request.first_message matches Some(
                    FirstMessage::AppendObjectSpec(resumed),
                )
                &&& resumed.generation == generation
                &&& resumed.object@ == location@
                &&& resumed.bucket@ == "projects/_/buckets/"@ + self.bucket@
                &&& append.method == crate::transport::parsed_path(BIDI_WRITE_OBJECT@)
                &&& append.method == crate::transport::parsed_path(
                    "/google.storage.v2.Storage/BidiWriteObject"@,
                )
                &&& append.pending.location@ == location@
            },
    {
        let append = AppendObjectSpec {
            bucket: self.bucket_resource(),
            object: location.as_str().to_string(),
            generation,
            if_metageneration_match: None,
            if_metageneration_not_match: None,
            routing_token: String::new(),
            write_handle: Vec::new(),
        };
        let request = BidiWriteObjectRequest {
            first_message: Some(FirstMessage::AppendObjectSpec(append)),
            state_lookup: true,
            ..BidiWriteObjectRequest::default()
        };
        Self::open_append(location, request, token)
    }

    /// The call that opens a write stream with `request` as its first message.
    fn open_append(
        location: &Path,
        request: BidiWriteObjectRequest,
        token: Result<String, Error>,
    ) -> (r: Result<AppendCall, Error>)
        ensures
            is_authorization(token, authorization_of_append(r)),
            r matches Ok(append) ==> {
                &&& append.call.request == request
                &&& append.method == crate::transport::parsed_path(BIDI_WRITE_OBJECT@)
                &&& append.method == crate::transport::parsed_path(
                    "/google.storage.v2.Storage/BidiWriteObject"@,
                )
                &&& append.pending.location@ == location@
            },
    {
        match Self::authorize(token) {
            Ok(metadata) => {
                proof {
                    lemma_method_is_path();
                }
                Ok(AppendCall {
                    call: Call { metadata, request },
                    method: path_from_static(BIDI_WRITE_OBJECT),
                    pending: PendingAppend { location: location.clone() },
                })
            },
            Err(error) => Err(error),
        }
    }
}

impl PendingAppend {
    /// Takes note of whether the server accepted the stream, and hands on the
    /// stream of answers if it did. A writer starts with nothing sent, for a
    /// resumed object too, and with the answer to the first message awaited.
    pub fn opened<S>(self, opened: Result<S, Status>) -> (r: Result<(AppendWriter, S), Error>)
        ensures
            match opened {
                Ok(stream) => {
                    &&& r matches Ok((writer, answers))
                    &&& writer.offset() == 0
                    &&& writer.awaited() == 1
                    &&& answers == stream
                },
                Err(status) => r matches Err(error) && error@ == crate::error::grpc_error(
                    status@,
                    self.location@,
                ),
            },
    {
        match opened {
            Ok(stream) => Ok((AppendWriter::new(), stream)),
            Err(status) => Err(map_grpc_error(status, self.location.as_str())),
        }
    }
}

/// The name of the write method is an absolute path.
proof fn lemma_method_is_path()
    ensures
        crate::transport::is_plain_path(BIDI_WRITE_OBJECT@),
{
    reveal_strlit("/google.storage.v2.Storage/BidiWriteObject");
}

/// A text can be a metadata value with `Bearer ` in front of it exactly where
/// it can be one itself.
proof fn lemma_bearer_text(token: Seq<char>)
    ensures
        crate::transport::is_metadata_text(BEARER@ + token) <==> crate::transport::is_metadata_text(
            token,
        ),
{
    reveal_strlit("Bearer ");
    let text = BEARER@ + token;
    if crate::transport::is_metadata_text(text) {
        assert forall|i: int| 0 <= i < token.len() implies (#[trigger] token[i] == '\t' || (token[i]
            >= ' ' && token[i] != '\u{7f}')) by {
            assert(text[i + BEARER@.len()] == token[i]);
        }
    }
}

/// The version that a write reports guards an update: given back as the
/// version to be updated, it makes the next write replace exactly the
/// generation that the first one made.
pub proof fn law_reported_version_guards_update(
    responses: Seq<crate::proto::BidiWriteObjectResponse>,
    last: int,
    update: UpdateVersion,
)
    requires
        0 <= last < responses.len(),
        crate::write::is_resource(responses[last]),
        forall|i: int|
            last < i < responses.len() ==> !crate::write::is_resource(#[trigger] responses[i]),
        crate::write::optional_text(update.version) == crate::write::outcome(responses).version,
    ensures
        required_generation(PutMode::Update(update)) == Some(
            crate::write::resource(responses[last]).generation,
        ),
{
    crate::write::law_last_resource_gives_version(responses);
    crate::text::law_parse_reads_decimal(crate::write::resource(responses[last]).generation);
}

/// The version in the metadata of an object guards an update in the same way.
pub proof fn law_listed_version_guards_update(
    location: Seq<char>,
    object: crate::proto::Object,
    update: UpdateVersion,
)
    requires
        crate::write::optional_text(update.version) == crate::object::meta_of(
            location,
            object,
        ).version,
    ensures
        required_generation(PutMode::Update(update)) == Some(object.generation),
{
    crate::text::law_parse_reads_decimal(object.generation);
}

/// Distinct buckets have distinct resource names.
pub proof fn law_resource_names_are_distinct(a: Seq<char>, b: Seq<char>)
    requires
        bucket_resource_name(a) == bucket_resource_name(b),
    ensures
        a == b,
{
    assert(a =~= bucket_resource_name(a).skip(BUCKETS@.len() as int));
    assert(b =~= bucket_resource_name(b).skip(BUCKETS@.len() as int));
}

/// A put ends its object; of the messages of an append only the finalizing one
/// does. What a paused writer has sent therefore leaves the object appendable.
pub proof fn law_only_put_and_finalize_end_an_object(
    bucket: Seq<char>,
    location: Seq<char>,
    payload: Bytes,
    mode: PutMode,
    generation: i64,
    offset: i64,
)
    ensures
        put_message(bucket, location, payload, mode).finish_write,
        crate::append::finish_message(offset).finish_write,
        !start_message(bucket, location).finish_write,
        !resume_message(bucket, location, generation).finish_write,
        !crate::append::write_message(offset, payload).finish_write,
        !crate::append::flush_message(offset).finish_write,
{
}

/// Data is only persisted on a flush: of the messages of an append the
/// flushing one alone asks for it.
pub proof fn law_only_flush_persists(
    bucket: Seq<char>,
    location: Seq<char>,
    data: Bytes,
    generation: i64,
    offset: i64,
)
    ensures
        crate::append::flush_message(offset).flush,
        !start_message(bucket, location).flush,
        !resume_message(bucket, location, generation).flush,
        !crate::append::write_message(offset, data).flush,
        !crate::append::finish_message(offset).flush,
{
}

/// Which messages of an append the service answers: the one that opens the
/// stream and each flush ask for the persisted size, and no other does before
/// the object is finalized. A writer that awaits one answer from the start, and
/// one more for each flush, therefore knows which answer belongs to which flush.
pub proof fn law_only_opening_and_flush_are_answered(
    bucket: Seq<char>,
    location: Seq<char>,
    data: Bytes,
    generation: i64,
    offset: i64,
)
    ensures
        start_message(bucket, location).state_lookup,
        resume_message(bucket, location, generation).state_lookup,
        crate::append::flush_message(offset).state_lookup,
        !crate::append::write_message(offset, data).state_lookup,
        !crate::append::finish_message(offset).state_lookup,
{
}

/// The message of a put carries the object, its data and its guard: it names
/// the location in the bucket, holds the payload from the start on, ends the
/// object, and requires no object for a create, none in particular for an
/// overwrite, and for an update the generation that the version denotes.
pub proof fn law_put_is_sent_as_asked(
    request: BidiWriteObjectRequest,
    bucket: Seq<char>,
    location: Seq<char>,
    payload: Bytes,
    mode: PutMode,
)
    requires
        request@ == put_message(bucket, location, payload, mode),
    ensures
        request.write_offset == 0 && request.finish_write && !request.flush
            && !request.state_lookup,
        request.data matches Some(data) && data.content == payload && data.crc32c is None,
        ({
            &&& request.first_message matches Some(FirstMessage::WriteObjectSpec(write))
            &&& write.resource matches Some(object)
            &&& object.name@ == location
            &&& object.bucket@ == "projects/_/buckets/"@ + bucket
            &&& object.etag@.len() == 0 && object.generation == 0 && object.size == 0
            &&& object.create_time is None && object.update_time is None
            &&& write.predefined_acl@.len() == 0 && write.object_size is None
            &&& write.if_generation_not_match is None
            &&& write.if_metageneration_match is None
            &&& write.if_metageneration_not_match is None
            &&& !write.appendable
            &&& match mode {
                PutMode::Create => write.if_generation_match == Some(0i64),
                PutMode::Overwrite => write.if_generation_match is None,
                PutMode::Update(update) => match update.version {
                    Some(version) => write.if_generation_match == crate::text::parsed_i64(version@),
                    None => write.if_generation_match is None,
                },
            }
        }),
{
}

/// An update is guarded by exactly the generation that was asked for: where the
/// version is a generation in decimal, the message requires that generation,
/// for every one that there is.
pub proof fn law_update_requires_its_generation(
    request: BidiWriteObjectRequest,
    bucket: Seq<char>,
    location: Seq<char>,
    payload: Bytes,
    update: UpdateVersion,
    version: String,
    generation: i64,
)
    requires
        request@ == put_message(bucket, location, payload, PutMode::Update(update)),
        update.version == Some(version),
        version@ == crate::text::decimal(generation as int),
    ensures
        request.first_message matches Some(FirstMessage::WriteObjectSpec(write))
            && write.if_generation_match == Some(generation),
{
    crate::text::law_parse_reads_decimal(generation);
}

/// Two updates are guarded by the same generation only where they name the same
/// one.
pub proof fn law_distinct_versions_guard_distinctly(
    request: BidiWriteObjectRequest,
    bucket: Seq<char>,
    location: Seq<char>,
    payload: Bytes,
    a: UpdateVersion,
    b: UpdateVersion,
    m: i64,
    n: i64,
)
    requires
        a.version is Some && a.version->Some_0@ == crate::text::decimal(m as int),
        b.version is Some && b.version->Some_0@ == crate::text::decimal(n as int),
        put_message(bucket, location, payload, PutMode::Update(a)) == put_message(
            bucket,
            location,
            payload,
            PutMode::Update(b),
        ),
    ensures
        m == n,
{
    crate::text::law_parse_reads_decimal(m);
    crate::text::law_parse_reads_decimal(n);
    let first = put_message(bucket, location, payload, PutMode::Update(a)).first_message;
    let second = put_message(bucket, location, payload, PutMode::Update(b)).first_message;
    assert(first->Some_0->WriteObjectSpec_0.if_generation_match == Some(m));
    assert(second->Some_0->WriteObjectSpec_0.if_generation_match == Some(n));
}

/// A resumed stream is opened on the version that was asked for: its first
/// message names the generation, for every one that there is, the location and
/// the bucket, and asks for the persisted size.
pub proof fn law_resume_names_its_generation(
    request: BidiWriteObjectRequest,
    bucket: Seq<char>,
    location: Seq<char>,
    generation: i64,
)
    requires
        request@ == resume_message(bucket, location, generation),
    ensures
        ({
            &&& request.first_message matches Some(FirstMessage::AppendObjectSpec(append))
            &&& append.generation == generation
            &&& append.object@ == location
            &&& append.bucket@ == "projects/_/buckets/"@ + bucket
            &&& append.if_metageneration_match is None
            &&& append.if_metageneration_not_match is None
            &&& append.routing_token@.len() == 0
            &&& append.write_handle@.len() == 0
        }),
        request.state_lookup && request.write_offset == 0 && request.data is None,
        !request.flush && !request.finish_write,
{
}

/// A new appendable object is opened at the location: the first message of its
/// stream names it in the bucket, makes it appendable without any condition,
/// and asks for the persisted size.
pub proof fn law_start_opens_an_appendable_object(
    request: BidiWriteObjectRequest,
    bucket: Seq<char>,
    location: Seq<char>,
)
    requires
        request@ == start_message(bucket, location),
    ensures
        ({
            &&& request.first_message matches Some(FirstMessage::WriteObjectSpec(write))
            &&& write.resource matches Some(object)
            &&& object.name@ == location
            &&& object.bucket@ == "projects/_/buckets/"@ + bucket
            &&& object.etag@.len() == 0 && object.generation == 0 && object.size == 0
            &&& object.create_time is None && object.update_time is None
            &&& write.predefined_acl@.len() == 0 && write.object_size is None
            &&& write.if_generation_not_match is None
            &&& write.if_metageneration_match is None
            &&& write.if_metageneration_not_match is None
            &&& write.if_generation_match is None
            &&& write.appendable
        }),
        request.state_lookup && request.write_offset == 0 && request.data is None,
        !request.flush && !request.finish_write,
{
}

/// A read is sent for the bytes that were asked for: the request has the given
/// offset and limit, and names the location and the bucket.
pub proof fn law_read_is_sent_as_asked(
    request: ReadObjectRequest,
    bucket: Seq<char>,
    location: Seq<char>,
    offset: i64,
    limit: i64,
)
    requires
        request@ == read_message(bucket, location, offset, limit),
    ensures
        request.read_offset == offset,
        request.read_limit == limit,
        request.object@ == location,
        request.bucket@ == "projects/_/buckets/"@ + bucket,
{
}

/// What authorizes a call: a token of characters that a metadata value can hold
/// becomes the only entry, behind `Bearer `; any other token is refused; and
/// where there is no token, the reason is handed on.
pub proof fn law_token_authorizes_call(
    token: Result<String, Error>,
    r: Result<MetadataMap, Error>,
    i: int,
)
    requires
        is_authorization(token, r),
    ensures
        token matches Err(error) ==> r == Err::<MetadataMap, Error>(error),
        token matches Ok(text) ==> {
            &&& (forall|k: int|
                0 <= k < text@.len() ==> (#[trigger] text@[k] == '\t' || ' ' <= text@[k] <= '~'
                    || text@[k] > '\u{7f}')) ==> {
                &&& r matches Ok(metadata)
                &&& crate::transport::metadata_entries(metadata) == Map::<
                    Seq<char>,
                    Seq<Seq<u8>>,
                >::empty().insert(
                    "authorization"@,
                    seq![vstd::utf8::encode_utf8("Bearer "@ + text@)],
                )
            }
            &&& 0 <= i < text@.len() && (text@[i] == '\u{7f}' || (text@[i] < ' ' && text@[i]
                != '\t')) ==> {
                &&& r matches Err(Error::Generic { store, source })
                &&& store@ == "GCSRapid"@
                &&& source is InvalidMetadataValue
            }
        },
{
}

/// What authorizes a prepared call is the metadata that it is sent with, and
/// where none was prepared, the reason is the error that is returned.
pub proof fn law_authorization_is_sent(
    call: Result<Call<ReadObjectRequest>, Error>,
    put: Result<PutCall, Error>,
    append: Result<AppendCall, Error>,
)
    ensures
        call matches Ok(sent) ==> authorization_of(call) == Ok::<MetadataMap, Error>(sent.metadata),
        call matches Err(error) ==> authorization_of(call) == Err::<MetadataMap, Error>(error),
        put matches Ok(sent) ==> authorization_of_put(put) == Ok::<MetadataMap, Error>(
            sent.call.metadata,
        ),
        put matches Err(error) ==> authorization_of_put(put) == Err::<MetadataMap, Error>(error),
        append matches Ok(sent) ==> authorization_of_append(append) == Ok::<MetadataMap, Error>(
            sent.call.metadata,
        ),
        append matches Err(error) ==> authorization_of_append(append) == Err::<
            MetadataMap,
            Error,
        >(error),
{
}

} // verus!
