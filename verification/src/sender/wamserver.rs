//! The HTTP sink: one `POST` of the structured encoding per message.

use crate::dispatch::dispatch;
use crate::message::{json_text, EncodeError, Message, MessageView};
use crate::outcome::{BatchResult, DeliveryError, DeliveryOutcome};
use vstd::prelude::*;

verus! {

/// What the transport is asked to send: a `POST` of `body`, which is JSON, to
/// `url`.
#[derive(Debug, Clone, PartialEq, Eq)]
pub struct HttpRequest {
    pub url: String,
    pub body: String,
}

/// The content type that every request declares for its body.
pub const CONTENT_TYPE: &'static str = "application/json";

/// The address that messages are posted to under an endpoint.
pub open spec fn message_url(server_url: Seq<char>) -> Seq<char> {
    server_url + "/message"@
}

/// Whether a status code reports success.
pub open spec fn is_success_status(status: u16) -> bool {
    200 <= status < 300
}

/// The outcome that an answer of the transport stands for: the status code
/// when one came back, the cause when none did.
pub open spec fn outcome_of_reply(reply: Result<u16, String>) -> DeliveryOutcome {
    match reply {
        Ok(status) => if is_success_status(status) {
            DeliveryOutcome::Success
        } else {
            DeliveryOutcome::Failure(DeliveryError::Status(status))
        },
        Err(cause) => DeliveryOutcome::Failure(DeliveryError::Transport(cause)),
    }
}

/// Whether `outcome` is what delivering a message to the endpoint at
/// `server_url` through `transport` may give. A message that has an encoding
/// is handed to the transport once, as a request to the endpoint's message
/// address with the encoding as its body, and the outcome is what the
/// transport's answer stands for. A message without one is a failure and is
/// never handed to the transport.
pub open spec fn sent<T: Fn(&HttpRequest) -> Result<u16, String>>(
    transport: T,
    message: MessageView,
    server_url: Seq<char>,
    outcome: DeliveryOutcome,
) -> bool {
    match json_text(message) {
        Some(body) => exists|request: HttpRequest, reply: Result<u16, String>|
            {
                &&& request.url@ == message_url(server_url)
                &&& request.body@ == body
                &&& #[trigger] call_ensures(transport, (&request,), reply)
                &&& outcome == outcome_of_reply(reply)
            },
        None => outcome matches DeliveryOutcome::Failure(DeliveryError::Serialization(_)),
    }
}

/// The address that messages are posted to under `server_url`.
pub fn request_url(server_url: &str) -> (url: String)
    ensures
        url@ == message_url(server_url@),
{
    let mut url = String::from_str(server_url);
    url.append("/message");
    url
}

/// Judges the answer of the transport. Any status outside `200..=299` is a
/// failure that carries the status; a transport error is a failure that
/// carries its cause.
pub fn classify_reply(reply: Result<u16, String>) -> (outcome: DeliveryOutcome)
    ensures
        outcome == outcome_of_reply(reply),
{
    match reply {
        Ok(status) => {
            if 200 <= status && status < 300 {
                DeliveryOutcome::Success
            } else {
                DeliveryOutcome::Failure(DeliveryError::Status(status))
            }
        },
        Err(cause) => DeliveryOutcome::Failure(DeliveryError::Transport(cause)),
    }
}

/// Builds the request for a message that went through the encoder: a request
/// to the message address of `server_url` with the encoding as its body, or,
/// where the encoder refused the message, the failure to report for it.
pub fn prepare_request(encoded: Result<String, EncodeError>, server_url: &str) -> (prepared:
    Result<HttpRequest, DeliveryError>)
    ensures
        match encoded {
            Ok(body) => {
                &&& prepared is Ok
                &&& prepared.unwrap().url@ == message_url(server_url@)
                &&& prepared.unwrap().body == body
            },
            Err(error) => prepared == Err::<HttpRequest, DeliveryError>(
                DeliveryError::Serialization(error.detail),
            ),
        },
{
    match encoded {
        Ok(body) => Ok(HttpRequest { url: request_url(server_url), body }),
        Err(error) => Err(DeliveryError::Serialization(error.detail)),
    }
}

/// Builds the request that delivers `message` to the endpoint at
/// `server_url`: a request to its message address with the structured
/// encoding of the message as its body. Where the message has no encoding,
/// the failure to report for it is returned.
pub fn build_request(message: &Message, server_url: &str) -> (prepared: Result<
    HttpRequest,
    DeliveryError,
>)
    ensures
        match prepared {
            Ok(request) => {
                &&& request.url@ == message_url(server_url@)
                &&& json_text(message@) == Some(request.body@)
            },
            Err(error) => json_text(message@) is None && error is Serialization,
        },
{
    prepare_request(message.to_json(), server_url)
}

/// Delivers one message to the endpoint at `server_url`: encodes it, hands
/// the request to `transport` once and judges the answer. Nothing is retried.
pub fn send_to_wam_server<T>(message: &Message, server_url: &String, transport: &T) -> (outcome:
    DeliveryOutcome) where T: Fn(&HttpRequest) -> Result<u16, String>
    requires
        forall|request: &HttpRequest| call_requires(*transport, (request,)),
    ensures
        sent(*transport, message@, server_url@, outcome),
{
    match build_request(message, server_url.as_str()) {
        Ok(request) => {
            let reply = transport(&request);
            classify_reply(reply)
        },
        Err(error) => DeliveryOutcome::Failure(error),
    }
}

/// Delivers a batch to the endpoint at `server_url`, without pacing, and
/// collects one outcome per message, in the order of the batch. A failed
/// delivery does not keep the remaining messages from being delivered.
pub fn send_messages_to_wam_server<T>(
    messages: Vec<Message>,
    server_url: &String,
    transport: T,
) -> (result: BatchResult) where T: Fn(&HttpRequest) -> Result<u16, String>
    requires
        forall|request: &HttpRequest| call_requires(transport, (request,)),
    ensures
        result@.len() == messages@.len(),
        forall|i: int|
            0 <= i < messages@.len() ==> {
                &&& (#[trigger] result@[i]).id == messages@[i].id
                &&& sent(transport, messages@[i]@, server_url@, result@[i].outcome)
            },
{
    let wire = &transport;
    let sink = |message: &Message| -> (outcome: DeliveryOutcome)
        ensures
            sent(*wire, message@, server_url@, outcome),
        { send_to_wam_server(message, server_url, wire) };
    let wait = |millis: u64| {  };
    dispatch(messages, 0, sink, wait)
}

} // verus!
