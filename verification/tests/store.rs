//! Whole conversations with a service that is kept in memory.
use std::collections::{HashMap, VecDeque};
use std::sync::Arc;

use bytes::Bytes;

use gcp_rapid::append::{AppendWriter, FlushStep};
use gcp_rapid::builder::GoogleCloudStorageBuilder;
use gcp_rapid::client::{AppendCall, PutMode, PutOptions, UpdateVersion};
use gcp_rapid::error::{Code, Error, Source, Status};
use gcp_rapid::object::Path;
use gcp_rapid::payload::PutPayload;
use gcp_rapid::proto::{
    BidiWriteObjectRequest, BidiWriteObjectResponse, ChecksummedData, FirstMessage, Object,
    ReadObjectRequest, ReadObjectResponse, WriteStatus,
};
use gcp_rapid::read::{ByteStream, ReadStep};
use gcp_rapid::store::{GetCall, GetOptions, GetRange, GetResult, GoogleCloudStorage};
use gcp_rapid::write::{PutResult, WriteResponses, WriteStep};
use gcp_rapid::{AppendableStore, GoogleCloudStorageRapid, GoogleCloudStorageRapidBuilder};

/// The objects of a bucket: their data and their generation.
struct Service {
    objects: HashMap<String, (Vec<u8>, i64)>,
    next_generation: i64,
}

/// An open write stream: the object's name, and the answers on their way.
#[derive(Debug)]
struct Stream {
    name: String,
    answers: VecDeque<Result<BidiWriteObjectResponse, Status>>,
}

impl Stream {
    fn answer(&mut self, write_status: WriteStatus) {
        self.answers.push_back(Ok(BidiWriteObjectResponse { write_status: Some(write_status) }));
    }

    fn receive(&mut self) -> Result<Option<BidiWriteObjectResponse>, Status> {
        self.answers.pop_front().transpose()
    }
}

impl Service {
    fn new() -> Service {
        Service { objects: HashMap::new(), next_generation: 1 }
    }

    fn resource(&self, name: &str) -> Object {
        let (data, generation) = &self.objects[name];
        let mut object = Object::named(name.to_string(), "projects/_/buckets/zonal".to_string());
        object.etag = format!("tag-{}", generation);
        object.generation = *generation;
        object.size = data.len() as i64;
        object
    }

    /// Takes the first message of a stream, and stores and answers it like any
    /// other.
    fn open(&mut self, request: BidiWriteObjectRequest) -> Result<Stream, Status> {
        let name = self.accept(&request)?;
        let mut stream = Stream { name, answers: VecDeque::new() };
        self.store(&mut stream, request);
        Ok(stream)
    }

    /// Finds or creates the object that the first message of a stream names.
    fn accept(&mut self, request: &BidiWriteObjectRequest) -> Result<String, Status> {
        match &request.first_message {
            Some(FirstMessage::WriteObjectSpec(write)) => {
                let resource = write.resource.as_ref().unwrap();
                assert_eq!(resource.bucket, "projects/_/buckets/zonal");
                let name = resource.name.clone();
                if let Some(wanted) = write.if_generation_match {
                    let found = self.objects.get(&name).map(|o| o.1).unwrap_or(0);
                    if wanted != found {
                        return Err(status(Code::FailedPrecondition));
                    }
                }
                let generation = self.next_generation;
                self.next_generation += 1;
                self.objects.insert(name.clone(), (Vec::new(), generation));
                Ok(name)
            }
            Some(FirstMessage::AppendObjectSpec(append)) => {
                assert_eq!(append.bucket, "projects/_/buckets/zonal");
                match self.objects.get(&append.object) {
                    Some((_, generation)) if *generation == append.generation => {
                        Ok(append.object.clone())
                    }
                    _ => Err(status(Code::NotFound)),
                }
            }
            _ => panic!("no first message"),
        }
    }

    /// Stores the data of a message and answers it where it asks for that. Data
    /// that does not start where the object ends makes the stream fail.
    fn store(&mut self, stream: &mut Stream, request: BidiWriteObjectRequest) {
        let object = self.objects.get_mut(&stream.name).unwrap();
        if let Some(data) = request.data {
            if request.write_offset != object.0.len() as i64 {
                stream.answers.push_back(Err(status(Code::OutOfRange)));
                return;
            }
            object.0.extend_from_slice(&data.content);
        }
        if request.finish_write {
            let resource = self.resource(&stream.name);
            stream.answer(WriteStatus::Resource(resource));
        } else if request.state_lookup {
            stream.answer(WriteStatus::PersistedSize(object.0.len() as i64));
        }
    }

    /// Answers a read in messages of at most three bytes, with an empty one
    /// after each.
    fn read(&self, request: &ReadObjectRequest) -> Result<Vec<ReadObjectResponse>, Status> {
        assert_eq!(request.bucket, "projects/_/buckets/zonal");
        let data = match self.objects.get(&request.object) {
            Some((data, _)) => data,
            None => return Err(status(Code::NotFound)),
        };
        let start = request.read_offset as usize;
        let end = if request.read_limit > 0 {
            std::cmp::min(start + request.read_limit as usize, data.len())
        } else {
            data.len()
        };
        let mut messages = vec![ReadObjectResponse {
            checksummed_data: None,
            metadata: Some(self.resource(&request.object)),
        }];
        for part in data[start..end].chunks(3) {
            messages.push(data_message(part));
            messages.push(data_message(b""));
        }
        Ok(messages)
    }
}

fn status(code: Code) -> Status {
    Status {
        code,
        message: "refused".to_string(),
        details: Bytes::new(),
        metadata: tonic::metadata::MetadataMap::new(),
    }
}

/// Errors are compared as they are shown.
fn assert_same(found: impl std::fmt::Debug, expected: impl std::fmt::Debug) {
    assert_eq!(format!("{:?}", found), format!("{:?}", expected));
}

fn data_message(part: &[u8]) -> ReadObjectResponse {
    ReadObjectResponse {
        checksummed_data: Some(ChecksummedData {
            content: Bytes::copy_from_slice(part),
            crc32c: None,
        }),
        metadata: None,
    }
}

fn token() -> Result<String, Error> {
    Ok("secret".to_string())
}

fn rapid_store() -> GoogleCloudStorageRapid<(), u8> {
    GoogleCloudStorageRapidBuilder::from_env(GoogleCloudStorageBuilder::<()>::new(), None)
        .build(|_| {
            Ok(GoogleCloudStorage {
                bucket_name: "zonal".to_string(),
                credentials: Arc::new(7u8),
                http: Arc::new(()),
            })
        })
        .expect("failed to build rapid store")
}

/// Receives the answers to a write until it is over.
fn receive_all(responses: WriteResponses, mut stream: Stream) -> Result<PutResult, Error> {
    let mut step = WriteStep::Receive(responses);
    loop {
        match step {
            WriteStep::Receive(next) => step = next.received(stream.receive()),
            WriteStep::Done(result) => return result,
        }
    }
}

fn put(
    service: &mut Service,
    path: &Path,
    payload: PutPayload,
    mode: PutMode,
) -> Result<PutResult, Error> {
    let put = rapid_store().put_opts(path, &payload, &PutOptions { mode }, token())?;
    let stream = put.responses.opened(service.open(put.call.request))?;
    receive_all(put.responses, stream)
}

fn open(service: &mut Service, append: AppendCall) -> Result<(AppendWriter, Stream), Error> {
    append.pending.opened(service.open(append.call.request))
}

fn write(service: &mut Service, writer: &mut AppendWriter, stream: &mut Stream, data: &str) {
    let (request, pending) = writer.write(Bytes::copy_from_slice(data.as_bytes()));
    service.store(stream, request);
    writer.write_sent(pending, true).expect("write failed");
}

fn flush(
    service: &mut Service,
    writer: &mut AppendWriter,
    stream: &mut Stream,
) -> Result<i64, Error> {
    service.store(stream, writer.flush());
    writer.flush_sent(true)?;
    loop {
        if let FlushStep::Done(result) = writer.flush_received(stream.receive()) {
            return result;
        }
    }
}

fn finalize(
    service: &mut Service,
    writer: AppendWriter,
    mut stream: Stream,
) -> Result<PutResult, Error> {
    let (request, responses) = writer.finalize();
    service.store(&mut stream, request);
    receive_all(responses, stream)
}

fn drain(stream: &mut ByteStream, messages: Vec<ReadObjectResponse>) -> (Vec<u8>, usize) {
    let mut messages = messages.into_iter();
    let mut bytes = Vec::new();
    let mut chunks = 0;
    loop {
        let mut step = stream.next_chunk();
        while let ReadStep::Receive = step {
            step = stream.read_next_chunk(Ok(messages.next()));
        }
        match step {
            ReadStep::Deliver(chunk) => {
                assert!(!chunk.is_empty());
                bytes.extend_from_slice(&chunk);
                chunks += 1;
            }
            ReadStep::End => return (bytes, chunks),
            _ => panic!("bytes failed"),
        }
    }
}

fn perform(service: &Service, get: GetCall) -> Result<(GetResult, Vec<u8>), Error> {
    let mut messages = get.pending.opened(service.read(&get.call.request))?;
    let first = messages.remove(0);
    let mut result = get.pending.received(Ok(Some(first)))?.finish(Ok(()))?;
    let (bytes, _) = drain(&mut result.stream, messages);
    Ok((result, bytes))
}

fn get(service: &Service, path: &Path, range: Option<GetRange>) -> Result<(GetResult, Vec<u8>), Error> {
    let get = rapid_store().get_opts(path, &GetOptions { range }, token())?;
    perform(service, get)
}

fn payload(parts: &[&str]) -> PutPayload {
    PutPayload { chunks: parts.iter().map(|p| Bytes::copy_from_slice(p.as_bytes())).collect() }
}

#[test]
fn rapid_put_get_roundtrip() {
    let mut service = Service::new();
    let path = Path::new("rapid_test/roundtrip.txt");
    let data = payload(&["hello rapid"]);

    put(&mut service, &path, data, PutMode::Overwrite).expect("put failed");

    let (_, bytes) = get(&service, &path, None).expect("get failed");
    assert_eq!(&bytes[..], b"hello rapid");
}

#[test]
fn rapid_append_flush_finalize() {
    let mut service = Service::new();
    let path = Path::new("rapid_test/appendable.txt");

    let append = rapid_store().start_append(&path, token()).expect("start_append failed");
    let (mut writer, mut stream) = open(&mut service, append).expect("start_append failed");

    write(&mut service, &mut writer, &mut stream, "chunk1");
    write(&mut service, &mut writer, &mut stream, "chunk2");
    assert_eq!(writer.write_offset(), 12);

    let persisted = flush(&mut service, &mut writer, &mut stream).expect("flush failed");
    assert!(persisted > 0, "expected positive persisted size");
    assert_eq!(persisted, 12);

    let result = finalize(&mut service, writer, stream).expect("finalize failed");
    assert!(result.version.is_some());

    let (_, bytes) = get(&service, &path, None).expect("get failed");
    assert_eq!(&bytes[..], b"chunk1chunk2");
}

#[test]
fn rapid_tail_read() {
    let mut service = Service::new();
    let path = Path::new("rapid_test/tail.txt");
    let data = payload(&["abcdefghij"]);
    put(&mut service, &path, data, PutMode::Overwrite).expect("put failed");

    let tail = rapid_store().tail_read(&path, 5, token()).expect("tail_read failed");
    let (result, bytes) = perform(&service, tail).expect("tail_read failed");
    assert_eq!(&bytes[..], b"fghij");
    assert_eq!(result.range, 5..10);
}

#[test]
fn chunks_of_a_payload_are_joined_in_order() {
    let mut service = Service::new();
    let path = Path::new("joined");
    put(&mut service, &path, payload(&["ab", "", "cde", "f"]), PutMode::Overwrite).unwrap();
    let (result, bytes) = get(&service, &path, None).unwrap();
    assert_eq!(&bytes[..], b"abcdef");
    assert_eq!(result.meta.size, 6);
    assert_eq!(result.range, 0..6);
}

#[test]
fn an_empty_payload_makes_an_empty_object() {
    let mut service = Service::new();
    let path = Path::new("empty");
    put(&mut service, &path, payload(&[]), PutMode::Overwrite).unwrap();
    let (result, bytes) = get(&service, &path, None).unwrap();
    assert!(bytes.is_empty());
    assert_eq!(result.range, 0..0);
    put(&mut service, &path, payload(&["", ""]), PutMode::Overwrite).unwrap();
    assert!(get(&service, &path, None).unwrap().1.is_empty());
}

#[test]
fn create_fails_where_the_object_exists() {
    let mut service = Service::new();
    let path = Path::new("once");
    put(&mut service, &path, payload(&["a"]), PutMode::Create).unwrap();
    let error = put(&mut service, &path, payload(&["b"]), PutMode::Create).unwrap_err();
    assert_same(
        error,
        Error::Precondition {
            path: "once".to_string(),
            source: Source::Status(status(Code::FailedPrecondition)),
        },
    );
    assert_eq!(&get(&service, &path, None).unwrap().1[..], b"a");
}

#[test]
fn a_reported_version_guards_the_next_update() {
    let mut service = Service::new();
    let path = Path::new("guarded");
    let first = put(&mut service, &path, payload(&["a"]), PutMode::Overwrite).unwrap();
    assert_eq!(first.version, Some("1".to_string()));
    assert_eq!(first.e_tag, Some("tag-1".to_string()));
    let stale = first.version.clone();
    let update = UpdateVersion { e_tag: None, version: first.version };
    put(&mut service, &path, payload(&["b"]), PutMode::Update(update)).unwrap();
    let update = UpdateVersion { e_tag: None, version: stale };
    let error = put(&mut service, &path, payload(&["c"]), PutMode::Update(update)).unwrap_err();
    assert!(matches!(error, Error::Precondition { .. }));
    let (result, bytes) = get(&service, &path, None).unwrap();
    assert_eq!(&bytes[..], b"b");
    let update = UpdateVersion { e_tag: None, version: result.meta.version };
    put(&mut service, &path, payload(&["d"]), PutMode::Update(update)).unwrap();
    assert_eq!(&get(&service, &path, None).unwrap().1[..], b"d");
}

#[test]
fn an_unreadable_version_guards_nothing() {
    let mut service = Service::new();
    let path = Path::new("unguarded");
    put(&mut service, &path, payload(&["a"]), PutMode::Create).unwrap();
    let update = UpdateVersion { e_tag: None, version: Some("v1".to_string()) };
    put(&mut service, &path, payload(&["b"]), PutMode::Update(update)).unwrap();
    let update = UpdateVersion { e_tag: Some("tag".to_string()), version: None };
    put(&mut service, &path, payload(&["c"]), PutMode::Update(update)).unwrap();
    assert_eq!(&get(&service, &path, None).unwrap().1[..], b"c");
}

#[test]
fn a_missing_object_is_reported_with_its_path() {
    let service = Service::new();
    let error = get(&service, &Path::new("gone"), None).unwrap_err();
    assert_same(
        error,
        Error::NotFound {
            path: "gone".to_string(),
            source: Source::Status(status(Code::NotFound)),
        },
    );
}

#[test]
fn ranges_are_delivered_as_reported() {
    let mut service = Service::new();
    let path = Path::new("ranges");
    put(&mut service, &path, payload(&["abcdefghij"]), PutMode::Overwrite).unwrap();
    let cases: [(Option<GetRange>, &[u8], std::ops::Range<u64>); 6] = [
        (Some(GetRange::Bounded(2..6)), b"cdef", 2..6),
        (Some(GetRange::Bounded(8..20)), b"ij", 8..10),
        (Some(GetRange::Bounded(4..4)), b"efghij", 4..10),
        (Some(GetRange::Offset(7)), b"hij", 7..10),
        (Some(GetRange::Suffix(3)), b"abcdefghij", 0..10),
        (None, b"abcdefghij", 0..10),
    ];
    for (range, expected, reported) in cases {
        let (result, bytes) = get(&service, &path, range).unwrap();
        assert_eq!(&bytes[..], expected);
        assert_eq!(result.range, reported);
    }
}

#[test]
fn every_flush_reports_its_own_size() {
    let mut service = Service::new();
    let append = rapid_store().start_append(&Path::new("flushed"), token()).unwrap();
    let (mut writer, mut stream) = open(&mut service, append).unwrap();
    for (data, expected) in [("abc", 3), ("", 3), ("defg", 7)] {
        write(&mut service, &mut writer, &mut stream, data);
        let persisted = flush(&mut service, &mut writer, &mut stream).unwrap();
        assert_eq!(persisted, expected);
        assert_eq!(writer.unanswered(), 0);
    }
}

#[test]
fn a_flush_whose_answer_was_not_received_is_made_up_for() {
    let mut service = Service::new();
    let append = rapid_store().start_append(&Path::new("cancelled"), token()).unwrap();
    let (mut writer, mut stream) = open(&mut service, append).unwrap();
    write(&mut service, &mut writer, &mut stream, "abc");
    service.store(&mut stream, writer.flush());
    writer.flush_sent(true).unwrap();
    write(&mut service, &mut writer, &mut stream, "de");
    assert_eq!(flush(&mut service, &mut writer, &mut stream).unwrap(), 5);
    let result = finalize(&mut service, writer, stream).unwrap();
    assert_eq!(result.version, Some("1".to_string()));
}

#[test]
fn an_unflushed_append_is_finalized() {
    let mut service = Service::new();
    let append = rapid_store().start_append(&Path::new("unflushed"), token()).unwrap();
    let (mut writer, mut stream) = open(&mut service, append).unwrap();
    write(&mut service, &mut writer, &mut stream, "abc");
    let result = finalize(&mut service, writer, stream).unwrap();
    assert_eq!(result.e_tag, Some("tag-1".to_string()));
}

#[test]
fn a_paused_append_is_resumed() {
    let mut service = Service::new();
    let path = Path::new("resumed");
    let append = rapid_store().start_append(&path, token()).unwrap();
    let (writer, stream) = open(&mut service, append).unwrap();
    assert_eq!(stream.name, "resumed");
    writer.pause();

    let append = rapid_store().resume_append(&path, 1, token()).unwrap();
    let (mut writer, mut stream) = open(&mut service, append).unwrap();
    assert_eq!(stream.name, "resumed");
    write(&mut service, &mut writer, &mut stream, "late");
    assert_eq!(flush(&mut service, &mut writer, &mut stream).unwrap(), 4);
    assert_eq!(&get(&service, &path, None).unwrap().1[..], b"late");

    let append = rapid_store().resume_append(&path, 9, token()).unwrap();
    let error = open(&mut service, append).unwrap_err();
    assert!(matches!(error, Error::NotFound { path, .. } if path == "resumed"));
}

#[test]
fn a_resumed_writer_counts_from_zero() {
    let mut service = Service::new();
    let path = Path::new("refused");
    let append = rapid_store().start_append(&path, token()).unwrap();
    let (mut writer, mut stream) = open(&mut service, append).unwrap();
    write(&mut service, &mut writer, &mut stream, "abc");
    assert_eq!(flush(&mut service, &mut writer, &mut stream).unwrap(), 3);
    writer.pause();

    let append = rapid_store().resume_append(&path, 1, token()).unwrap();
    let (mut writer, mut stream) = open(&mut service, append).unwrap();
    assert_eq!(writer.write_offset(), 0);
    write(&mut service, &mut writer, &mut stream, "d");
    assert_eq!(writer.write_offset(), 1);
    let error = flush(&mut service, &mut writer, &mut stream).unwrap_err();
    assert_same(
        error,
        Error::Generic { store: "GCSRapid", source: Source::Status(status(Code::OutOfRange)) },
    );
    assert_eq!(&get(&service, &path, None).unwrap().1[..], b"abc");
}
