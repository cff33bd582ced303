//! The end of a write: collecting the answers until the stream ends.
use vstd::prelude::*;

use crate::error::{map_grpc_error, Error, Status};
use crate::proto::{BidiWriteObjectResponse, WriteStatus};
use crate::text::i64_to_string;

verus! {

/// What a completed write reports of the object that it made.
#[derive(Debug, PartialEq)]
pub struct PutResult {
    pub e_tag: Option<String>,
    pub version: Option<String>,
}

/// The mathematical value of a [`PutResult`].
pub struct PutResultView {
    pub e_tag: Option<Seq<char>>,
    pub version: Option<Seq<char>>,
}

/// The mathematical value of an optional text.
pub open spec fn optional_text(text: Option<String>) -> Option<Seq<char>> {
    match text {
        Some(text) => Some(text@),
        None => None,
    }
}

impl View for PutResult {
    type V = PutResultView;

    open spec fn view(&self) -> PutResultView {
        PutResultView {
            e_tag: optional_text(self.e_tag),
            version: optional_text(self.version),
        }
    }
}

/// What is known of the object before any answer.
pub open spec fn nothing_known() -> PutResultView {
    PutResultView { e_tag: None, version: None }
}

/// What is known of the object after one more answer: an answer that carries
/// the finished object names its version, and its entity tag if it has one.
pub open spec fn absorb(
    known: PutResultView,
    response: BidiWriteObjectResponse,
) -> PutResultView {
    match response.write_status {
        Some(WriteStatus::Resource(object)) => PutResultView {
            e_tag: if object.etag@.len() > 0 {
                Some(object.etag@)
            } else {
                known.e_tag
            },
            version: Some(crate::text::decimal(object.generation as int)),
        },
        _ => known,
    }
}

/// What is known of the object after the given answers.
pub open spec fn outcome(responses: Seq<BidiWriteObjectResponse>) -> PutResultView
    decreases responses.len(),
{
    if responses.len() == 0 {
        nothing_known()
    } else {
        absorb(outcome(responses.drop_last()), responses.last())
    }
}

/// A write of which all messages are sent, and some answers received.
#[derive(Debug, PartialEq)]
pub struct WriteResponses {
    path: String,
    known: PutResult,
}

/// What to do next about a write.
#[derive(Debug)]
pub enum WriteStep {
    /// Receive one more answer.
    Receive(WriteResponses),
    /// Report the result: the write is over.
    Done(Result<PutResult, Error>),
}

impl WriteResponses {
    /// The path under which failures of the write are reported.
    pub closed spec fn path(self) -> Seq<char> {
        self.path@
    }

    /// What the answers so far say of the object.
    pub closed spec fn known(self) -> PutResultView {
        self.known@
    }

    /// A write before its first answer.
    pub fn new(path: &str) -> (responses: WriteResponses)
        ensures
            responses.path() == path@,
            responses.known() == nothing_known(),
    {
        WriteResponses {
            path: path.to_string(),
            known: PutResult { e_tag: None, version: None },
        }
    }

    /// Takes note of whether the server accepted the call, and hands on the
    /// stream of answers if it did.
    pub fn opened<S>(&self, opened: Result<S, Status>) -> (r: Result<S, Error>)
        ensures
            match opened {
                Ok(stream) => r == Ok::<S, Error>(stream),
                Err(status) => r matches Err(error) && error@ == crate::error::grpc_error(
                    status@,
                    self.path(),
                ),
            },
    {
        match opened {
            Ok(stream) => Ok(stream),
            Err(status) => Err(map_grpc_error(status, self.path.as_str())),
        }
    }

    /// Takes in what came over the stream: an answer, its end, or a failure.
    pub fn received(
        self,
        message: Result<Option<BidiWriteObjectResponse>, Status>,
    ) -> (step: WriteStep)
        ensures
            match message {
                Ok(Some(response)) => step matches WriteStep::Receive(next) && next.path()
                    == self.path() && next.known() == absorb(self.known(), response),
                Ok(None) => step matches WriteStep::Done(Ok(result)) && result@ == self.known(),
                Err(status) => step matches WriteStep::Done(Err(error)) && error@
                    == crate::error::grpc_error(status@, self.path()),
            },
    {
        match message {
            Ok(Some(response)) => {
                let mut next = self;
                if let Some(WriteStatus::Resource(object)) = response.write_status {
                    next.known.version = Some(i64_to_string(object.generation));
                    if !object.etag.as_str().is_empty() {
                        next.known.e_tag = Some(object.etag);
                    }
                }
                WriteStep::Receive(next)
            },
            Ok(None) => WriteStep::Done(Ok(self.known)),
            Err(status) => WriteStep::Done(Err(map_grpc_error(status, self.path.as_str()))),
        }
    }
}

/// Whether an answer carries the finished object.
pub open spec fn is_resource(response: BidiWriteObjectResponse) -> bool {
    response.write_status matches Some(WriteStatus::Resource(_))
}

/// Whether an answer carries the finished object and an entity tag of it.
pub open spec fn has_e_tag(response: BidiWriteObjectResponse) -> bool {
    response.write_status matches Some(WriteStatus::Resource(object)) && object.etag@.len() > 0
}

/// The object that an answer carries.
pub open spec fn resource(response: BidiWriteObjectResponse) -> crate::proto::Object
    recommends
        is_resource(response),
{
    response.write_status->Some_0->Resource_0
}

/// One more answer is absorbed into what the earlier ones said.
pub proof fn law_outcome_step(
    responses: Seq<BidiWriteObjectResponse>,
    response: BidiWriteObjectResponse,
)
    ensures
        outcome(Seq::<BidiWriteObjectResponse>::empty()) == nothing_known(),
        outcome(responses.push(response)) == absorb(outcome(responses), response),
{
    assert(responses.push(response).drop_last() =~= responses);
}

/// The version that a write reports is the generation of the last object that
/// an answer carried, and there is none if no answer carried one.
pub proof fn law_last_resource_gives_version(responses: Seq<BidiWriteObjectResponse>)
    ensures
        (forall|i: int| 0 <= i < responses.len() ==> !is_resource(#[trigger] responses[i]))
            ==> outcome(responses).version is None,
        forall|k: int|
            0 <= k < responses.len() && is_resource(#[trigger] responses[k]) && (forall|i: int|
                k < i < responses.len() ==> !is_resource(#[trigger] responses[i]))
                ==> outcome(responses).version == Some(
                crate::text::decimal(resource(responses[k]).generation as int),
            ),
    decreases responses.len(),
{
    if responses.len() > 0 {
        let shorter = responses.drop_last();
        law_last_resource_gives_version(shorter);
        assert forall|k: int|
            0 <= k < responses.len() && is_resource(#[trigger] responses[k]) && (forall|i: int|
                k < i < responses.len() ==> !is_resource(#[trigger] responses[i])) implies outcome(
            responses,
        ).version == Some(
            crate::text::decimal(resource(responses[k]).generation as int),
        ) by {
            if k < shorter.len() {
                assert(!is_resource(responses[responses.len() - 1]));
                assert(is_resource(shorter[k]));
                assert(forall|i: int| k < i < shorter.len() ==> shorter[i] == responses[i]);
            }
        }
        if forall|i: int| 0 <= i < responses.len() ==> !is_resource(#[trigger] responses[i]) {
            assert(!is_resource(responses[responses.len() - 1]));
            assert(forall|i: int| 0 <= i < shorter.len() ==> shorter[i] == responses[i]);
        }
    }
}

/// The entity tag that a write reports is the last one that is not empty, and
/// there is none if no answer carried one.
pub proof fn law_last_tag_wins(responses: Seq<BidiWriteObjectResponse>)
    ensures
        (forall|i: int| 0 <= i < responses.len() ==> !has_e_tag(#[trigger] responses[i]))
            ==> outcome(responses).e_tag is None,
        forall|k: int|
            0 <= k < responses.len() && has_e_tag(#[trigger] responses[k]) && (forall|i: int|
                k < i < responses.len() ==> !has_e_tag(#[trigger] responses[i])) ==> outcome(
                responses,
            ).e_tag == Some(resource(responses[k]).etag@),
    decreases responses.len(),
{
    if responses.len() > 0 {
        let shorter = responses.drop_last();
        law_last_tag_wins(shorter);
        assert forall|k: int|
            0 <= k < responses.len() && has_e_tag(#[trigger] responses[k]) && (forall|i: int|
                k < i < responses.len() ==> !has_e_tag(#[trigger] responses[i])) implies outcome(
            responses,
        ).e_tag == Some(resource(responses[k]).etag@) by {
            if k < shorter.len() {
                assert(!has_e_tag(responses[responses.len() - 1]));
                assert(has_e_tag(shorter[k]));
                assert(forall|i: int| k < i < shorter.len() ==> shorter[i] == responses[i]);
            }
        }
        if forall|i: int| 0 <= i < responses.len() ==> !has_e_tag(#[trigger] responses[i]) {
            assert(!has_e_tag(responses[responses.len() - 1]));
            assert(forall|i: int| 0 <= i < shorter.len() ==> shorter[i] == responses[i]);
        }
    }
}

/// The version that a finished write reports is the generation, in decimal, of
/// the last object that an answer carried.
pub proof fn law_result_has_last_generation(
    result: PutResult,
    responses: Seq<BidiWriteObjectResponse>,
    k: int,
    object: crate::proto::Object,
)
    requires
        result@ == outcome(responses),
        0 <= k < responses.len(),
        responses[k].write_status == Some(WriteStatus::Resource(object)),
        forall|i: int|
            k < i < responses.len() ==> !((#[trigger] responses[i]).write_status matches Some(
                WriteStatus::Resource(_),
            )),
    ensures
        result.version matches Some(version) && version@ == crate::text::decimal(
            object.generation as int,
        ),
{
    law_last_resource_gives_version(responses);
    assert(is_resource(responses[k]));
    assert(forall|i: int| k < i < responses.len() ==> !is_resource(#[trigger] responses[i]));
}

/// The entity tag that a finished write reports is the last one in an answer
/// that is not empty.
pub proof fn law_result_has_last_tag(
    result: PutResult,
    responses: Seq<BidiWriteObjectResponse>,
    k: int,
    object: crate::proto::Object,
)
    requires
        result@ == outcome(responses),
        0 <= k < responses.len(),
        responses[k].write_status == Some(WriteStatus::Resource(object)),
        object.etag@.len() > 0,
        forall|i: int|
            k < i < responses.len() ==> ((#[trigger] responses[i]).write_status matches Some(
                WriteStatus::Resource(later),
            ) ==> later.etag@.len() == 0),
    ensures
        result.e_tag matches Some(e_tag) && e_tag@ == object.etag@,
{
    law_last_tag_wins(responses);
    assert(has_e_tag(responses[k]));
    assert(forall|i: int| k < i < responses.len() ==> !has_e_tag(#[trigger] responses[i]));
}

/// A write whose answers carry no object reports nothing, and one whose answers
/// carry no entity tag reports none.
pub proof fn law_result_without_object_is_empty(
    result: PutResult,
    responses: Seq<BidiWriteObjectResponse>,
)
    requires
        result@ == outcome(responses),
        forall|i: int|
            0 <= i < responses.len() ==> ((#[trigger] responses[i]).write_status matches Some(
                WriteStatus::Resource(object),
            ) ==> object.etag@.len() == 0),
    ensures
        result.e_tag is None,
        (forall|i: int|
            0 <= i < responses.len() ==> !((#[trigger] responses[i]).write_status matches Some(
                WriteStatus::Resource(_),
            ))) ==> result.version is None,
{
    law_last_resource_gives_version(responses);
    law_last_tag_wins(responses);
    assert(forall|i: int| 0 <= i < responses.len() ==> !has_e_tag(#[trigger] responses[i]));
    if forall|i: int|
        0 <= i < responses.len() ==> !((#[trigger] responses[i]).write_status matches Some(
            WriteStatus::Resource(_),
        )) {
        assert(forall|i: int| 0 <= i < responses.len() ==> !is_resource(#[trigger] responses[i]));
    }
}

/// One answer changes what is known only where it carries the object: its
/// generation becomes the version, and its entity tag is taken over unless it
/// is empty.
pub proof fn law_answer_is_taken_over(
    known: PutResultView,
    response: BidiWriteObjectResponse,
    size: i64,
)
    ensures
        nothing_known().e_tag is None && nothing_known().version is None,
        response.write_status is None ==> absorb(known, response) == known,
        response.write_status == Some(WriteStatus::PersistedSize(size)) ==> absorb(known, response)
            == known,
        response.write_status matches Some(WriteStatus::Resource(object)) ==> {
            &&& absorb(known, response).version == Some(
                crate::text::decimal(object.generation as int),
            )
            &&& object.etag@.len() == 0 ==> absorb(known, response).e_tag == known.e_tag
            &&& object.etag@.len() > 0 ==> absorb(known, response).e_tag == Some(object.etag@)
        },
{
}

} // verus!
