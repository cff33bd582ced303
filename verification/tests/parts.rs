//! The parts of the store one by one.
use std::sync::Arc;

use bytes::Bytes;

use gcp_rapid::append::{AppendWriter, FlushStep};
use gcp_rapid::builder::{GoogleCloudStorageBuilder, GoogleCloudStorageRapidBuilder};
use gcp_rapid::client::{
    GrpcStorageClient, PendingAppend, PutMode, PutOptions, BIDI_WRITE_OBJECT, DEFAULT_GRPC_ENDPOINT,
};
use gcp_rapid::error::{generic, map_grpc_error, Code, Error, Source, Status, STORE};
use gcp_rapid::object::{object_to_meta, Path};
use gcp_rapid::payload::PutPayload;
use gcp_rapid::proto::{
    BidiWriteObjectRequest, BidiWriteObjectResponse, ChecksummedData, FirstMessage, Object,
    ReadObjectResponse, WriteStatus,
};
use gcp_rapid::read::{open_object, ReadStep};
use gcp_rapid::store::{
    AppendableStore, Attributes, GetOptions, GetRange, GoogleCloudStorage, GoogleCloudStorageRapid, PendingGet,
};
use gcp_rapid::text::{i64_to_string, parse_i64};
use gcp_rapid::time::{to_date_time, DateTime, Timestamp, MAX_SECONDS, MIN_SECONDS};
use gcp_rapid::transport::tls_endpoint;
use gcp_rapid::write::{PutResult, WriteResponses, WriteStep};

fn status(code: Code) -> Status {
    Status {
        code,
        message: "no".to_string(),
        details: Bytes::from("why"),
        metadata: tonic::metadata::MetadataMap::new(),
    }
}

/// Errors are compared as they are shown.
fn assert_same(found: impl std::fmt::Debug, expected: impl std::fmt::Debug) {
    assert_eq!(format!("{:?}", found), format!("{:?}", expected));
}

fn client(bucket: &str) -> GrpcStorageClient<u8> {
    GrpcStorageClient::new("https://localhost:1", Arc::new(3u8), bucket.to_string()).unwrap()
}

fn inner(bucket: &str) -> GoogleCloudStorage<char, u8> {
    GoogleCloudStorage {
        bucket_name: bucket.to_string(),
        credentials: Arc::new(5u8),
        http: Arc::new('h'),
    }
}

fn store() -> GoogleCloudStorageRapid<char, u8> {
    GoogleCloudStorageRapid::from_inner(inner("b"), None).unwrap()
}

fn authorization(metadata: &tonic::metadata::MetadataMap) -> &str {
    metadata.get("authorization").unwrap().to_str().unwrap()
}

fn token() -> Result<String, Error> {
    Ok("t0".to_string())
}

#[test]
fn integers_are_written_in_decimal() {
    for n in [0, 1, 9, 10, 99, 100, -1, -10, 12345, 1234567890123, i64::MAX, i64::MIN] {
        assert_eq!(i64_to_string(n), n.to_string());
        assert_eq!(parse_i64(&i64_to_string(n)), Some(n));
    }
}

#[test]
fn integers_are_read_as_the_standard_library_reads_them() {
    let texts = [
        "", "-", "+", "0", "-0", "+7", "007", "12a", "a12", " 1", "1 ", "1_000", "--1", "+-1",
        "9223372036854775807", "9223372036854775808", "-9223372036854775808",
        "-9223372036854775809", "99999999999999999999999999", "99999999999999999999999999x",
        "\u{0663}", "1\u{e9}", "00000000000000000000000000000001",
    ];
    for text in texts {
        assert_eq!(parse_i64(text), text.parse::<i64>().ok(), "{}", text);
    }
}

#[test]
fn statuses_become_errors() {
    let path = || "p".to_string();
    let source = |code| Source::Status(status(code));
    let error = |code| map_grpc_error(status(code), "p");
    assert_same(error(Code::NotFound), Error::NotFound { path: path(), source: source(Code::NotFound) });
    assert_same(
        error(Code::AlreadyExists),
        Error::AlreadyExists { path: path(), source: source(Code::AlreadyExists) },
    );
    for code in [Code::FailedPrecondition, Code::Aborted] {
        assert_same(error(code), Error::Precondition { path: path(), source: source(code) });
    }
    assert_same(
        error(Code::PermissionDenied),
        Error::PermissionDenied { path: path(), source: source(Code::PermissionDenied) },
    );
    assert_same(
        error(Code::Unauthenticated),
        Error::Unauthenticated { path: path(), source: source(Code::Unauthenticated) },
    );
    for code in [
        Code::Success, Code::Cancelled, Code::Unknown, Code::InvalidArgument,
        Code::DeadlineExceeded, Code::ResourceExhausted, Code::OutOfRange, Code::Unimplemented,
        Code::Internal, Code::Unavailable, Code::DataLoss,
    ] {
        assert_same(error(code), Error::Generic { store: "GCSRapid", source: source(code) });
    }
    assert_eq!(STORE, "GCSRapid");
}

#[test]
fn timestamps_become_points_in_time() {
    let epoch = DateTime { seconds: 0, nanos: 0 };
    let time = |seconds, nanos| to_date_time(&Timestamp { seconds, nanos });
    assert_eq!(time(1431648000, 5), DateTime { seconds: 1431648000, nanos: 5 });
    assert_eq!(time(-1, 999_999_999), DateTime { seconds: -1, nanos: 999_999_999 });
    assert_eq!(time(10, -1), epoch);
    assert_eq!(time(10, i32::MIN), epoch);
    assert_eq!(time(10, 1_000_000_000), epoch);
    assert_eq!(time(59, 1_000_000_000), DateTime { seconds: 59, nanos: 1_000_000_000 });
    assert_eq!(time(-1, 1_999_999_999), DateTime { seconds: -1, nanos: 1_999_999_999 });
    assert_eq!(time(59, 2_000_000_000), epoch);
    assert_eq!(time(MIN_SECONDS, 0), DateTime { seconds: MIN_SECONDS, nanos: 0 });
    assert_eq!(time(MAX_SECONDS, 1), DateTime { seconds: MAX_SECONDS, nanos: 1 });
    assert_eq!(time(MIN_SECONDS - 1, 0), epoch);
    assert_eq!(time(MAX_SECONDS + 1, 0), epoch);
    assert_eq!(time(i64::MIN, 0), epoch);
    assert_eq!(time(i64::MAX, 0), epoch);
}

#[test]
fn metadata_of_an_object() {
    let location = Path::new("a/b");
    let mut object = Object::named("a/b".to_string(), "x".to_string());
    object.size = 42;
    object.generation = -7;
    let meta = object_to_meta(&location, &object);
    assert_eq!(meta.location, location);
    assert_eq!(meta.last_modified, DateTime { seconds: 0, nanos: 0 });
    assert_eq!(meta.size, 42);
    assert_eq!(meta.e_tag, None);
    assert_eq!(meta.version, Some("-7".to_string()));

    object.etag = "tag".to_string();
    object.size = -1;
    object.create_time = Some(Timestamp { seconds: 100, nanos: 1 });
    let meta = object_to_meta(&location, &object);
    assert_eq!(meta.last_modified, DateTime { seconds: 100, nanos: 1 });
    assert_eq!(meta.size, u64::MAX);
    assert_eq!(meta.e_tag, Some("tag".to_string()));

    object.update_time = Some(Timestamp { seconds: 200, nanos: 2 });
    assert_eq!(
        object_to_meta(&location, &object).last_modified,
        DateTime { seconds: 200, nanos: 2 }
    );
    object.update_time = Some(Timestamp { seconds: 200, nanos: -2 });
    assert_eq!(
        object_to_meta(&location, &object).last_modified,
        DateTime { seconds: 0, nanos: 0 }
    );
}

#[test]
fn a_payload_is_collected() {
    let chunks = vec![Bytes::from("ab"), Bytes::new(), Bytes::from("c")];
    let payload = PutPayload { chunks };
    assert_eq!(payload.content_length(), 3);
    assert_eq!(payload.checked_content_length(), Some(3));
    assert_eq!(payload.collect(), Bytes::from("abc"));
    let payload = PutPayload { chunks: Vec::new() };
    assert_eq!(payload.content_length(), 0);
    assert_eq!(payload.checked_content_length(), Some(0));
    assert_eq!(payload.collect(), Bytes::new());
}

#[test]
fn a_token_is_put_into_the_metadata() {
    let mut metadata = tonic::metadata::MetadataMap::new();
    metadata.insert("other", "kept".parse().unwrap());
    GrpcStorageClient::<u8>::inject_auth(&mut metadata, "abc").unwrap();
    assert_eq!(authorization(&metadata), "Bearer abc");
    GrpcStorageClient::<u8>::inject_auth(&mut metadata, "d e\tf").unwrap();
    assert_eq!(authorization(&metadata), "Bearer d e\tf");
    assert_eq!(metadata.get("other").unwrap(), "kept");
    assert_eq!(metadata.len(), 2);
    GrpcStorageClient::<u8>::inject_auth(&mut metadata, "").unwrap();
    assert_eq!(authorization(&metadata), "Bearer ");
    GrpcStorageClient::<u8>::inject_auth(&mut metadata, "\u{e9}").unwrap();
    assert_eq!(
        metadata.get("authorization").unwrap().as_bytes(),
        "Bearer \u{e9}".as_bytes()
    );
}

#[test]
fn a_token_with_a_control_character_is_refused() {
    for token in ["a\nb", "\u{0}", "\u{7f}", "x\r"] {
        let mut metadata = tonic::metadata::MetadataMap::new();
        metadata.insert("authorization", "before".parse().unwrap());
        let error = GrpcStorageClient::<u8>::inject_auth(&mut metadata, token).unwrap_err();
        assert!(matches!(
            error,
            Error::Generic { store: STORE, source: Source::InvalidMetadataValue(_) }
        ));
        assert_eq!(authorization(&metadata), "before");
        let call = client("b").get(&Path::new("o"), 0, 0, Ok(token.to_string()));
        assert!(matches!(
            call.unwrap_err(),
            Error::Generic { store: STORE, source: Source::InvalidMetadataValue(_) }
        ));
    }
}

#[test]
fn without_a_token_no_call_is_made() {
    let failure = || generic(Source::Message("no credentials".to_string()));
    let client = client("b");
    let path = Path::new("o");
    let opts = PutOptions { mode: PutMode::Overwrite };
    assert_same(client.put(&path, Bytes::new(), &opts, Err(failure())).unwrap_err(), failure());
    assert_same(client.get(&path, 0, 0, Err(failure())).unwrap_err(), failure());
    assert_same(client.start_append(&path, Err(failure())).unwrap_err(), failure());
    assert_same(client.resume_append(&path, 1, Err(failure())).unwrap_err(), failure());
    let options = GetOptions { range: None };
    assert_same(store().get_opts(&path, &options, Err(failure())).unwrap_err(), failure());
    assert_same(store().tail_read(&path, 1, Err(failure())).unwrap_err(), failure());
}

#[test]
fn endpoints_are_checked() {
    assert_eq!(
        client("b").endpoint.uri().to_string(),
        "https://localhost:1/"
    );
    for (endpoint, reason) in [
        ("", "invalid URI"),
        ("not a uri", "invalid URI"),
        ("https://", "invalid URI"),
        ("/no/host", "transport error"),
        ("https://bad_host!", "transport error"),
    ] {
        let error = GrpcStorageClient::new(endpoint, Arc::new(0u8), "b".to_string()).unwrap_err();
        match error {
            Error::Generic { store: "GCSRapid", source: Source::Transport(failure) } => {
                assert_eq!(failure.to_string(), reason, "{}", endpoint);
            }
            other => panic!("{:?}", other),
        }
    }
    assert_eq!(DEFAULT_GRPC_ENDPOINT, "https://storage.googleapis.com");
}

#[test]
fn an_endpoint_may_be_set_up_beforehand() {
    let endpoint = tls_endpoint("https://localhost:2/");
    let client = GrpcStorageClient::with_endpoint(endpoint, Arc::new(0u8), "b".to_string());
    let client = client.unwrap();
    assert_eq!(client.endpoint.uri().to_string(), "https://localhost:2/");
    assert_eq!(client.bucket, "b");
    let client = GrpcStorageClient::with_endpoint(tls_endpoint("/"), Arc::new(0u8), "b".to_string());
    assert_same(client.unwrap_err(), generic(Source::Transport(tls_endpoint("/").unwrap_err())));
}

#[test]
fn stores_and_builders_can_be_cloned() {
    let store = store();
    let clone = store.clone();
    assert_eq!(clone.display(), store.display());
    assert!(Arc::ptr_eq(&clone.grpc_client, &store.grpc_client));
    assert!(Arc::ptr_eq(&clone.inner.credentials, &store.inner.credentials));
    assert!(Arc::ptr_eq(&clone.inner.http, &store.inner.http));
    let builder = GoogleCloudStorageRapidBuilder::<_, _, ()>::new()
        .with_bucket_name("kept".to_string())
        .with_grpc_endpoint("https://localhost:3".to_string());
    let clone = builder.clone().with_bucket_name("changed".to_string());
    let built = builder.build(|config| Ok(inner(&config.bucket_name.unwrap()))).unwrap();
    assert_eq!(built.inner.bucket_name(), "kept");
    let built = clone.build(|config| Ok(inner(&config.bucket_name.unwrap()))).unwrap();
    assert_eq!(built.inner.bucket_name(), "changed");
    assert_eq!(built.grpc_client.endpoint.uri().to_string(), "https://localhost:3/");
}

#[test]
fn buckets_have_resource_names() {
    assert_eq!(client("my-bucket").bucket_resource(), "projects/_/buckets/my-bucket");
}

#[test]
fn the_put_request() {
    let opts = PutOptions { mode: PutMode::Create };
    let put = client("b").put(&Path::new("o"), Bytes::from("xyz"), &opts, token()).unwrap();
    assert_eq!(authorization(&put.call.metadata), "Bearer t0");
    let request = put.call.request;
    assert_eq!(request.write_offset, 0);
    assert!(request.finish_write && !request.flush && !request.state_lookup);
    assert_eq!(
        request.data,
        Some(ChecksummedData { content: Bytes::from("xyz"), crc32c: None })
    );
    match request.first_message {
        Some(FirstMessage::WriteObjectSpec(write)) => {
            assert_eq!(write.if_generation_match, Some(0));
            assert!(!write.appendable);
            let expected = Object::named("o".to_string(), "projects/_/buckets/b".to_string());
            assert_eq!(write.resource, Some(expected));
        }
        other => panic!("{:?}", other),
    }
}

#[test]
fn the_read_request() {
    let call = client("b").get(&Path::new("o"), 3, 4, token()).unwrap();
    assert_eq!(authorization(&call.metadata), "Bearer t0");
    assert_eq!(call.request.bucket, "projects/_/buckets/b");
    assert_eq!(call.request.object, "o");
    assert_eq!((call.request.read_offset, call.request.read_limit), (3, 4));
}

#[test]
fn the_append_requests() {
    let start = client("b").start_append(&Path::new("o"), token()).unwrap();
    assert_eq!(start.method.as_str(), "/google.storage.v2.Storage/BidiWriteObject");
    assert_eq!(start.method.as_str(), BIDI_WRITE_OBJECT);
    assert_eq!(authorization(&start.call.metadata), "Bearer t0");
    let request = start.call.request;
    assert!(request.state_lookup && !request.finish_write && !request.flush);
    assert_eq!(request.data, None);
    match request.first_message {
        Some(FirstMessage::WriteObjectSpec(write)) => {
            assert!(write.appendable);
            assert_eq!(write.if_generation_match, None);
            assert_eq!(write.resource.unwrap().name, "o");
        }
        other => panic!("{:?}", other),
    }

    let resume = client("b").resume_append(&Path::new("o"), 17, token()).unwrap();
    assert_eq!(resume.method.as_str(), BIDI_WRITE_OBJECT);
    assert!(resume.call.request.state_lookup);
    match resume.call.request.first_message {
        Some(FirstMessage::AppendObjectSpec(append)) => {
            assert_eq!(append.bucket, "projects/_/buckets/b");
            assert_eq!(append.object, "o");
            assert_eq!(append.generation, 17);
            assert_eq!(append.write_handle, Vec::<u8>::new());
        }
        other => panic!("{:?}", other),
    }
    let pending = PendingAppend { location: Path::new("o") };
    let error = pending.opened::<()>(Err(status(Code::PermissionDenied))).unwrap_err();
    assert!(matches!(error, Error::PermissionDenied { path, .. } if path == "o"));
    let pending = PendingAppend { location: Path::new("o") };
    let (writer, stream) = pending.opened(Ok("stream")).unwrap();
    assert_eq!((writer.write_offset(), writer.unanswered(), stream), (0, 1, "stream"));
}

#[test]
fn a_writer_counts_what_it_sends() {
    let mut writer = AppendWriter::new();
    assert_eq!(writer.write_offset(), 0);
    let (request, pending) = writer.write(Bytes::from("abc"));
    assert_eq!(
        request,
        BidiWriteObjectRequest {
            data: Some(ChecksummedData { content: Bytes::from("abc"), crc32c: None }),
            ..BidiWriteObjectRequest::default()
        }
    );
    assert_same(
        writer.write_sent(pending, false).unwrap_err(),
        generic(Source::RequestStreamClosed),
    );
    assert_eq!(writer.write_offset(), 0);
    let (_, pending) = writer.write(Bytes::from("abc"));
    writer.write_sent(pending, true).unwrap();
    assert_eq!(writer.write_offset(), 3);
    let (request, _) = writer.write(Bytes::new());
    assert_eq!(request.write_offset, 3);

    let flush = writer.flush();
    assert!(flush.flush && flush.state_lookup && !flush.finish_write);
    assert_eq!((flush.write_offset, flush.data), (3, None));

    let (finish, responses) = writer.finalize();
    assert!(finish.finish_write && !finish.flush && !finish.state_lookup);
    assert_eq!((finish.write_offset, finish.data), (3, None));
    match responses.received(Err(status(Code::NotFound))) {
        WriteStep::Done(Err(Error::NotFound { path, .. })) => assert_eq!(path, "finalize"),
        other => panic!("{:?}", other),
    }
}

fn answer(write_status: Option<WriteStatus>) -> Result<Option<BidiWriteObjectResponse>, Status> {
    Ok(Some(BidiWriteObjectResponse { write_status }))
}

/// A writer that has sent four bytes and a flush, and has the answer to the
/// message that opened its stream.
fn flushing_writer() -> AppendWriter {
    let mut writer = AppendWriter::new();
    let (_, pending) = writer.write(Bytes::from("abcd"));
    writer.write_sent(pending, true).unwrap();
    writer.flush_sent(true).unwrap();
    let step = writer.flush_received(answer(Some(WriteStatus::PersistedSize(0))));
    assert!(matches!(step, FlushStep::Receive));
    assert_eq!(writer.unanswered(), 1);
    writer
}

#[test]
fn the_answer_to_a_flush() {
    let object = Object::named("o".to_string(), "b".to_string());
    for (write_status, expected) in [
        (Some(WriteStatus::PersistedSize(2)), 2),
        (Some(WriteStatus::Resource(object)), 4),
        (None, 4),
    ] {
        let mut writer = flushing_writer();
        match writer.flush_received(answer(write_status)) {
            FlushStep::Done(Ok(size)) => assert_eq!(size, expected),
            other => panic!("{:?}", other),
        }
        assert_eq!((writer.write_offset(), writer.unanswered()), (4, 0));
    }
    let mut writer = flushing_writer();
    assert_same(
        writer.flush_received(Ok(None)),
        FlushStep::Done(Err(generic(Source::Message("Stream closed during flush".to_string())))),
    );
    assert_same(
        writer.flush_received(Err(status(Code::Aborted))),
        FlushStep::Done(Err(Error::Precondition {
            path: "flush".to_string(),
            source: Source::Status(status(Code::Aborted)),
        })),
    );
    assert_eq!(writer.unanswered(), 1);
}

#[test]
fn answers_are_told_apart_by_their_order() {
    let mut writer = AppendWriter::new();
    assert_eq!(writer.unanswered(), 1);
    assert_same(writer.flush_sent(false).unwrap_err(), generic(Source::RequestStreamClosed));
    assert_eq!(writer.unanswered(), 1);
    writer.flush_sent(true).unwrap();
    writer.flush_sent(true).unwrap();
    for size in [0, 6] {
        let step = writer.flush_received(answer(Some(WriteStatus::PersistedSize(size))));
        assert!(matches!(step, FlushStep::Receive));
    }
    let step = writer.flush_received(answer(Some(WriteStatus::PersistedSize(12))));
    assert!(matches!(step, FlushStep::Done(Ok(12))));
}

fn resource(etag: &str, generation: i64) -> BidiWriteObjectResponse {
    let mut object = Object::named("o".to_string(), "b".to_string());
    object.etag = etag.to_string();
    object.generation = generation;
    BidiWriteObjectResponse { write_status: Some(WriteStatus::Resource(object)) }
}

fn outcome(answers: Vec<BidiWriteObjectResponse>) -> PutResult {
    let mut responses = WriteResponses::new("p");
    for answer in answers {
        match responses.received(Ok(Some(answer))) {
            WriteStep::Receive(next) => responses = next,
            WriteStep::Done(_) => panic!("ended early"),
        }
    }
    match responses.received(Ok(None)) {
        WriteStep::Done(Ok(result)) => result,
        _ => panic!("not ended"),
    }
}

#[test]
fn the_last_answer_counts() {
    let persisted =
        || BidiWriteObjectResponse { write_status: Some(WriteStatus::PersistedSize(1)) };
    assert_eq!(outcome(vec![]), PutResult { e_tag: None, version: None });
    assert_eq!(outcome(vec![persisted()]), PutResult { e_tag: None, version: None });
    let result = outcome(vec![resource("a", 1), resource("", 2), persisted()]);
    assert_eq!(
        result,
        PutResult { e_tag: Some("a".to_string()), version: Some("2".to_string()) }
    );
    let result = outcome(vec![resource("", 5)]);
    assert_eq!(result, PutResult { e_tag: None, version: Some("5".to_string()) });
    let result = outcome(vec![resource("a", 9), resource("b", 3)]);
    assert_eq!(
        result,
        PutResult { e_tag: Some("b".to_string()), version: Some("3".to_string()) }
    );
}

#[test]
fn the_first_message_of_a_read() {
    let location = Path::new("o");
    assert_same(
        open_object(&location, Ok(None)).unwrap_err(),
        generic(Source::Message("Empty response stream from ReadObject".to_string())),
    );
    let bare = ReadObjectResponse { checksummed_data: None, metadata: None };
    assert_same(
        open_object(&location, Ok(Some(bare))).unwrap_err(),
        generic(Source::Message("No metadata in first ReadObject response".to_string())),
    );
    assert!(matches!(
        open_object(&location, Err(status(Code::Unauthenticated))).unwrap_err(),
        Error::Unauthenticated { path, .. } if path == "o"
    ));
    let mut object = Object::named("o".to_string(), "b".to_string());
    object.size = 4;
    let first = ReadObjectResponse {
        checksummed_data: Some(ChecksummedData { content: Bytes::from("ab"), crc32c: None }),
        metadata: Some(object),
    };
    let mut opened = open_object(&location, Ok(Some(first))).unwrap();
    assert_eq!(opened.total_size, 4);
    assert!(matches!(opened.stream.next_chunk(), ReadStep::Deliver(b) if &b[..] == b"ab"));
    assert!(matches!(opened.stream.next_chunk(), ReadStep::Receive));
    let empty = ReadObjectResponse {
        checksummed_data: Some(ChecksummedData { content: Bytes::new(), crc32c: None }),
        metadata: None,
    };
    assert!(matches!(opened.stream.read_next_chunk(Ok(Some(empty))), ReadStep::Receive));
    let none = ReadObjectResponse { checksummed_data: None, metadata: None };
    assert!(matches!(opened.stream.read_next_chunk(Ok(Some(none))), ReadStep::Receive));
    assert!(matches!(opened.stream.read_next_chunk(Ok(None)), ReadStep::End));
    match opened.stream.read_next_chunk(Err(status(Code::NotFound))) {
        ReadStep::Failed(Error::NotFound { path, .. }) => assert_eq!(path, "o"),
        other => panic!("{:?}", other),
    }
}

#[test]
fn windows_of_a_read() {
    let window = |range| {
        let get = store().get_opts(&Path::new("o"), &GetOptions { range }, token()).unwrap();
        let request = &get.call.request;
        assert_eq!(request.read_limit, get.pending.read_limit);
        (request.read_offset, request.read_limit, get.pending.range_start)
    };
    assert_eq!(window(None), (0, 0, 0));
    assert_eq!(window(Some(GetRange::Bounded(3..9))), (3, 6, 3));
    assert_eq!(window(Some(GetRange::Offset(4))), (4, 0, 4));
    assert_eq!(window(Some(GetRange::Suffix(4))), (0, 0, 0));
    assert_eq!(window(Some(GetRange::Offset(u64::MAX))), (-1, 0, 0));
    assert_eq!(window(Some(GetRange::Bounded(1..u64::MAX))), (1, -2, 1));
    let tail = store().tail_read(&Path::new("o"), u64::MAX, token()).unwrap();
    assert_eq!(tail.call.request.read_offset, -1);
    assert_eq!(tail.pending.range_start, u64::MAX);
}

#[test]
fn conditions_of_a_read_are_respected() {
    let opened = || {
        let pending = PendingGet { location: Path::new("o"), range_start: 2, read_limit: 3 };
        let mut object = Object::named("o".to_string(), "b".to_string());
        object.size = 10;
        let first = ReadObjectResponse { checksummed_data: None, metadata: Some(object) };
        pending.received(Ok(Some(first))).unwrap()
    };
    let result = opened().finish(Ok(())).unwrap();
    assert_eq!(result.range, 2..5);
    assert_eq!(result.meta.size, 10);
    assert_eq!(result.attributes, Attributes::default());
    assert!(result.attributes.entries.is_empty());
    let refused = || generic(Source::Message("condition".to_string()));
    assert_same(opened().finish(Err(refused())).unwrap_err(), refused());
    let unmodified = || Error::NotModified {
        path: "o".to_string(),
        source: Source::Message("same tag".to_string()),
    };
    assert_same(opened().finish(Err(unmodified())).unwrap_err(), unmodified());
}

#[test]
fn the_builder_collects_its_settings() {
    let expected = GoogleCloudStorageBuilder {
        bucket_name: Some("last".to_string()),
        service_account_key: Some("{...}".to_string()),
        service_account_path: Some("key.json".to_string()),
        application_credentials: Some("adc.json".to_string()),
        rest: Some(Arc::new("proxy")),
    };
    let from_env = GoogleCloudStorageBuilder {
        bucket_name: Some("environment".to_string()),
        service_account_key: None,
        service_account_path: None,
        application_credentials: None,
        rest: Some(Arc::new("proxy")),
    };
    let store = GoogleCloudStorageRapidBuilder::from_env(from_env, None)
        .with_bucket_name("first".to_string())
        .with_application_credentials("adc.json".to_string())
        .with_service_account_path("key.json".to_string())
        .with_service_account_key("{...}".to_string())
        .with_bucket_name("last".to_string())
        .build(|config| {
            assert_eq!(config, expected);
            Ok(inner("built"))
        })
        .unwrap();
    assert_eq!(store.grpc_client.bucket, "built");
    assert_eq!(*store.grpc_client.credentials, 5);
    assert_eq!(
        store.grpc_client.endpoint.uri().to_string(),
        "https://storage.googleapis.com/"
    );
    assert_eq!(store.display(), "GoogleCloudStorageRapid(built)");
}

#[test]
fn a_given_inner_store_is_reused() {
    let store = GoogleCloudStorageRapidBuilder::<_, _, ()>::default()
        .with_bucket_name("ignored".to_string())
        .with_inner_store(inner("given"))
        .with_grpc_endpoint("http://localhost:9000".to_string())
        .build(|_| panic!("built although a store was given"))
        .unwrap();
    assert_eq!(store.inner.bucket_name(), "given");
    assert_eq!(store.grpc_client.bucket, "given");
    assert_eq!(store.grpc_client.endpoint.uri().to_string(), "http://localhost:9000/");
}

#[test]
fn a_store_that_cannot_be_built_is_reported() {
    let failure = || generic(Source::Message("no bucket".to_string()));
    let error =
        GoogleCloudStorageRapidBuilder::<char, u8, ()>::new().build(|_| Err(failure())).unwrap_err();
    assert_same(error, failure());
    let config = GoogleCloudStorageBuilder::<()>::new();
    assert_eq!(config.rest, None);
    let error = GoogleCloudStorageRapidBuilder::from_env(config, Some("no uri".to_string()))
        .build(|_| Ok(inner("b")))
        .unwrap_err();
    assert!(matches!(error, Error::Generic { source: Source::Transport(_), .. }));
}
