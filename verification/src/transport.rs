//! What the gRPC transport is handed: metadata, endpoints and method paths.
use http::uri::PathAndQuery;
use tonic::metadata::MetadataMap;
use tonic::transport::{ClientTlsConfig, Endpoint, Error as TransportError};
use vstd::prelude::*;
use vstd::utf8::encode_utf8;

verus! {

/// `tonic::metadata::MetadataMap`, the metadata of a request.
#[verifier::external_type_specification]
#[verifier::external_body]
pub struct ExMetadataMap(tonic::metadata::MetadataMap);

/// `tonic::metadata::errors::InvalidMetadataValue`, the error for a text that
/// cannot be a metadata value.
#[verifier::external_type_specification]
#[verifier::external_body]
pub struct ExInvalidMetadataValue(tonic::metadata::errors::InvalidMetadataValue);

/// `tonic::transport::Endpoint`, the address of a server.
#[verifier::external_type_specification]
#[verifier::external_body]
pub struct ExEndpoint(tonic::transport::Endpoint);

/// `tonic::transport::Error`, the error for an address that cannot be used.
#[verifier::external_type_specification]
#[verifier::external_body]
pub struct ExTransportError(TransportError);

/// `http::uri::PathAndQuery`, the path of a gRPC method.
#[verifier::external_type_specification]
#[verifier::external_body]
pub struct ExPathAndQuery(http::uri::PathAndQuery);

/// The entries of a `MetadataMap`: the values of each key, in order.
pub uninterp spec fn metadata_entries(metadata: tonic::metadata::MetadataMap) -> Map<
    Seq<char>,
    Seq<Seq<u8>>,
>;

/// The endpoint that a text denotes, or the error where it is no valid URI.
pub uninterp spec fn parsed_endpoint(text: Seq<char>) -> Result<
    tonic::transport::Endpoint,
    tonic::transport::Error,
>;

/// The error with which TLS cannot be configured for an endpoint, if it names
/// no host that a certificate could be checked against.
pub uninterp spec fn tls_failure(endpoint: tonic::transport::Endpoint) -> Option<
    tonic::transport::Error,
>;

/// Whether TLS is configured for an endpoint.
pub uninterp spec fn has_tls(endpoint: tonic::transport::Endpoint) -> bool;

/// An endpoint apart from its TLS configuration.
pub uninterp spec fn plain_endpoint(endpoint: tonic::transport::Endpoint) ->
    tonic::transport::Endpoint;

/// The method path that a text denotes.
pub uninterp spec fn parsed_path(text: Seq<char>) -> http::uri::PathAndQuery;

/// Whether a text can be a metadata value: it holds no control character but
/// the tab.
pub open spec fn is_metadata_text(text: Seq<char>) -> bool {
    forall|i: int|
        0 <= i < text.len() ==> (#[trigger] text[i] == '\t' || (text[i] >= ' ' && text[i]
            != '\u{7f}'))
}

/// Whether a text is a metadata key made of lower case letters alone.
pub open spec fn is_plain_key(key: Seq<char>) -> bool {
    &&& 0 < key.len() <= 64
    &&& forall|i: int| 0 <= i < key.len() ==> 'a' <= #[trigger] key[i] && key[i] <= 'z'
}

/// Whether the metadata can take another key without reaching the limit on the
/// size of its table, which starts to bind at a fifth of 32768 keys.
pub open spec fn has_room(metadata: MetadataMap) -> bool {
    &&& metadata_entries(metadata).dom().finite()
    &&& metadata_entries(metadata).dom().len() < 6554
}

/// `MetadataMap::new` makes a map without entries.
pub assume_specification[ tonic::metadata::MetadataMap::new ]() -> (metadata:
    tonic::metadata::MetadataMap)
    ensures
        (metadata_entries(metadata) == Map::<Seq<char>, Seq<Seq<u8>>>::empty()),
;

/// `MetadataMap::insert`, with the text parsed to an ASCII metadata value: the
/// text becomes the only value of the key, and every other key keeps its
/// values. A text that cannot be a metadata value is rejected and nothing is
/// inserted. `insert` panics on a malformed key and on a full table.
#[verifier::external_body]
pub(crate) fn insert_text(metadata: &mut MetadataMap, key: &'static str, text: &str) -> (r: Result<
    (),
    tonic::metadata::errors::InvalidMetadataValue,
>)
    requires
        is_plain_key(key@),
        has_room(*old(metadata)),
    ensures
        r is Ok <==> is_metadata_text(text@),
        r is Ok ==> metadata_entries(*final(metadata)) == metadata_entries(*old(metadata)).insert(
            key@,
            seq![encode_utf8(text@)],
        ),
        r is Err ==> *final(metadata) == *old(metadata),
{
    metadata.insert(key, text.parse()?);
    Ok(())
}

/// `Endpoint::from_shared`: the endpoint that the text denotes, for which no
/// TLS is configured, or an error where the text is no valid URI.
#[verifier::external_body]
pub(crate) fn parse_endpoint(text: &str) -> (r: Result<Endpoint, TransportError>)
    ensures
        r == parsed_endpoint(text@),
        r matches Ok(endpoint) ==> !has_tls(endpoint),
{
    Endpoint::from_shared(text.to_string())
}

/// `Endpoint::tls_config` with the default `ClientTlsConfig`: the same endpoint
/// with TLS configured, or an error where it names no host that a certificate
/// could be checked against. What the TLS configuration holds is left unsaid:
/// it depends on the cryptography that the process has installed. Where the
/// process has no single provider of that, the call panics; no argument decides
/// it.
#[verifier::external_body]
pub(crate) fn with_tls(endpoint: Endpoint) -> (r: Result<Endpoint, TransportError>)
    ensures
        match r {
            Ok(secured) => tls_failure(endpoint) is None,
            Err(error) => tls_failure(endpoint) == Some(error),
        },
        r matches Ok(secured) ==> has_tls(secured),
        r matches Ok(secured) ==> plain_endpoint(secured) == plain_endpoint(endpoint),
{
    endpoint.tls_config(ClientTlsConfig::new())
}

/// The error for a text that denotes no endpoint that can be reached over TLS,
/// if it denotes none.
pub open spec fn endpoint_failure(text: Seq<char>) -> Option<TransportError> {
    match parsed_endpoint(text) {
        Ok(endpoint) => tls_failure(endpoint),
        Err(error) => Some(error),
    }
}

/// Whether an endpoint is the one that a text denotes, with TLS configured.
pub open spec fn is_endpoint_of(text: Seq<char>, endpoint: Endpoint) -> bool {
    &&& has_tls(endpoint)
    &&& parsed_endpoint(text) matches Ok(parsed)
    &&& plain_endpoint(endpoint) == plain_endpoint(parsed)
}

/// The endpoint that a text denotes, with TLS configured.
pub fn tls_endpoint(text: &str) -> (r: Result<Endpoint, TransportError>)
    ensures
        match r {
            Ok(endpoint) => endpoint_failure(text@) is None && is_endpoint_of(text@, endpoint),
            Err(error) => endpoint_failure(text@) == Some(error),
        },
{
    match parse_endpoint(text) {
        Ok(endpoint) => with_tls(endpoint),
        Err(error) => Err(error),
    }
}

/// Whether a text is an absolute path of letters, digits, dots and slashes.
pub open spec fn is_plain_path(path: Seq<char>) -> bool {
    &&& 0 < path.len() <= 1024
    &&& path[0] == '/'
    &&& forall|i: int| 0 <= i < path.len() ==> is_plain_path_char(#[trigger] path[i])
}

/// Whether a character is a letter, a digit, a dot or a slash.
pub open spec fn is_plain_path_char(c: char) -> bool {
    ||| 'a' <= c && c <= 'z'
    ||| 'A' <= c && c <= 'Z'
    ||| '0' <= c && c <= '9'
    ||| c == '.'
    ||| c == '/'
}

/// `PathAndQuery::from_static`: the method path that the text denotes. It
/// panics on a text that is no path.
#[verifier::external_body]
pub(crate) fn path_from_static(text: &'static str) -> (path: PathAndQuery)
    requires
        is_plain_path(text@),
    ensures
        path == parsed_path(text@),
{
    PathAndQuery::from_static(text)
}

/// An endpoint comes of a text exactly where the text is a valid URI with a
/// valid host; it then has TLS configured and is otherwise what the text says.
pub proof fn law_endpoint_of_text(text: Seq<char>, endpoint: Endpoint)
    ensures
        match parsed_endpoint(text) {
            Ok(parsed) => {
                &&& endpoint_failure(text) == tls_failure(parsed)
                &&& is_endpoint_of(text, endpoint) <==> has_tls(endpoint) && plain_endpoint(endpoint)
                    == plain_endpoint(parsed)
            },
            Err(error) => endpoint_failure(text) == Some(error) && !is_endpoint_of(text, endpoint),
        },
{
}

} // verus!
