//! The execution-mode adapter: turns a front door's raw invocation into a
//! GraphQL request for the schema, and the schema's response back into what
//! the front door sends.
//!
//! Executing the request is the schema's own asynchronous work and happens
//! between `accept_invocation` and `respond`, in the hosting program.
use vstd::prelude::*;
use vstd::string::StringSliceAdditionalSpecFns;
use vstd::utf8::{decode_utf8, encode_utf8_decode_utf8, valid_utf8};

verus! {

#[verifier::external_type_specification]
#[verifier::external_body]
pub struct ExGraphQLRequest(async_graphql::Request);

#[verifier::external_type_specification]
#[verifier::external_body]
pub struct ExGraphQLResponse(async_graphql::Response);

#[verifier::external_type_specification]
#[verifier::external_body]
pub struct ExJsonError(serde_json::Error);

/// The media type that every response of the serverless front door declares.
pub const GRAPHQL_CONTENT_TYPE: &'static str = "application/json";

/// The path that the local front door serves, both for the exploration page
/// and for execution.
pub const EXECUTION_ENDPOINT: &'static str = "/";

/// Why one invocation could not be handled.
pub enum AdapterError {
    /// The payload is not well-formed UTF-8.
    Decode,
    /// The payload is text but not a GraphQL request document.
    MalformedRequest { message: String },
}

/// What the serverless front door hands back for one invocation.
pub struct ResponseEnvelope {
    pub status: u16,
    pub content_type: String,
    pub body: String,
}

/// Whether serde_json reads `text` as a GraphQL request document.
pub uninterp spec fn graphql_request_text(text: Seq<char>) -> bool;

/// The JSON text that serde_json writes for a GraphQL response.
pub uninterp spec fn response_json(response: async_graphql::Response) -> Seq<char>;

/// The exploration page that async-graphql builds for an execution endpoint.
pub uninterp spec fn graphiql_page(endpoint: Seq<char>) -> Seq<char>;

/// Relies on std::str::from_utf8: it succeeds exactly on well-formed UTF-8,
/// and the text it gives holds the same bytes.
#[verifier::external_body]
fn utf8_text(bytes: &[u8]) -> (r: Option<&str>)
    ensures
        r is Some <==> valid_utf8(bytes@),
        r matches Some(t) ==> t.spec_bytes() == bytes@,
{
    std::str::from_utf8(bytes).ok()
}

/// Relies on serde_json::from_str reading an async_graphql::Request: whether
/// it succeeds depends on the text alone.
#[verifier::external_body]
fn read_request(text: &str) -> (r: Result<async_graphql::Request, serde_json::Error>)
    ensures
        r is Ok <==> graphql_request_text(text@),
{
    serde_json::from_str(text)
}

/// Relies on serde_json::to_string to write an async_graphql::Response as
/// JSON text. A response holds only JSON values, string-keyed maps and plain
/// error fields, so writing it never fails, and the text depends on the
/// response alone.
#[verifier::external_body]
fn write_response(response: &async_graphql::Response) -> (r: Result<String, serde_json::Error>)
    ensures
        r is Ok,
        r matches Ok(s) ==> s@ == response_json(*response),
{
    serde_json::to_string(response)
}

/// Relies on serde_json::Error's Display to describe what went wrong.
#[verifier::external_body]
fn json_error_text(e: &serde_json::Error) -> (r: String) {
    e.to_string()
}

/// Relies on async_graphql::http::GraphiQLSource to build the exploration
/// page for an endpoint; the page depends on the endpoint alone.
#[verifier::external_body]
fn graphiql_source(endpoint: &str) -> (r: String)
    ensures
        r@ == graphiql_page(endpoint@),
{
    async_graphql::http::GraphiQLSource::build().endpoint(endpoint).finish()
}

/// The payload as text; fails with `Decode` exactly when it is not UTF-8.
pub fn decode_payload(body: &[u8]) -> (r: Result<&str, AdapterError>)
    ensures
        r is Err <==> !valid_utf8(body@),
        r matches Err(e) ==> e is Decode,
        r matches Ok(t) ==> t@ == decode_utf8(body@),
{
    match utf8_text(body) {
        Some(t) => {
            proof {
                encode_utf8_decode_utf8(t@);
            }
            Ok(t)
        },
        None => Err(AdapterError::Decode),
    }
}

/// Reads a GraphQL request document; fails with `MalformedRequest` exactly
/// when the text is not one.
pub fn parse_request(text: &str) -> (r: Result<async_graphql::Request, AdapterError>)
    ensures
        r is Ok <==> graphql_request_text(text@),
        r matches Err(e) ==> e is MalformedRequest,
{
    match read_request(text) {
        Ok(req) => Ok(req),
        Err(e) => Err(AdapterError::MalformedRequest { message: json_error_text(&e) }),
    }
}

/// The first half of serving one invocation: decodes the payload and reads
/// the request in it. A payload that is not UTF-8 fails with `Decode` before
/// anything else is tried, so no request ever reaches the schema from it.
pub fn accept_invocation(body: &[u8]) -> (r: Result<async_graphql::Request, AdapterError>)
    ensures
        !valid_utf8(body@) <==> (r matches Err(e) && e is Decode),
        valid_utf8(body@) ==> (r is Ok <==> graphql_request_text(decode_utf8(body@))),
        valid_utf8(body@) && !graphql_request_text(decode_utf8(body@)) ==> (r matches Err(e)
            && e is MalformedRequest),
{
    let text = decode_payload(body)?;
    parse_request(text)
}

/// The envelope for a response already written as JSON: status 200, the
/// GraphQL JSON content type, and the JSON as the body.
pub fn envelope(json: String) -> (r: ResponseEnvelope)
    ensures
        r.status == 200,
        r.content_type@ == GRAPHQL_CONTENT_TYPE@,
        r.body == json,
{
    ResponseEnvelope { status: 200, content_type: String::from_str(GRAPHQL_CONTENT_TYPE), body: json }
}

/// The second half of serving one invocation: writes the schema's response
/// as JSON and wraps it in an envelope with status 200 that declares the
/// GraphQL JSON content type. It always succeeds.
pub fn respond(response: &async_graphql::Response) -> (r: ResponseEnvelope)
    ensures
        r.status == 200,
        r.content_type@ == GRAPHQL_CONTENT_TYPE@,
        r.body@ == response_json(*response),
{
    match write_response(response) {
        Ok(json) => envelope(json),
        // Never taken: writing a response always succeeds.
        Err(_) => envelope(String::new()),
    }
}

/// The exploration page of the local front door, pointed at the endpoint
/// that executes requests.
pub fn exploration_page() -> (r: String)
    ensures
        r@ == graphiql_page(EXECUTION_ENDPOINT@),
{
    graphiql_source(EXECUTION_ENDPOINT)
}

/// The TCP port that the local front door binds, when `port` is one.
pub fn listen_port(port: i32) -> (r: Option<u16>)
    ensures
        r == (if 0 <= port <= 65535 { Some(port as u16) } else { None::<u16> }),
{
    if 0 <= port && port <= 65535 {
        Some(port as u16)
    } else {
        None
    }
}

} // verus!
