//! Messages of the HTTP bridge, and what the bridge decides: which request a
//! `what` names, and which response a transaction is answered with. Text is
//! turned into these values and back outside this library.

use vstd::prelude::*;
use crate::config::Config;
use crate::payload::Payload;
use crate::serial_error::Error;
use crate::frame::{decode_error_kind, spec_decode_error_kind};
use crate::structured::PayloadEnum;
use crate::transaction::{layer_error, spec_describe};
use crate::wire::encode_error;

verus! {

/// A node in a list of nodes.
#[derive(Debug, Clone, PartialEq, Eq)]
pub struct ListAutomato {
    pub id: i64,
}

/// A message to or from the node `id`.
#[derive(Debug, Clone, PartialEq, Eq)]
pub struct AutomatoMsg {
    pub id: u8,
    pub message: PayloadEnum,
}

/// A message for a node under the name of what it is.
#[derive(Debug, Clone, PartialEq, Eq)]
pub struct WhatMsg {
    pub what: String,
    pub msg: AutomatoMsg,
}

/// An error under the name of what it is.
#[derive(Debug, Clone, PartialEq, Eq)]
pub struct WhatError {
    pub what: String,
    pub msg: Error,
}

/// The requests that the public interface knows.
#[derive(Debug, Clone, Copy, PartialEq, Eq, Structural)]
pub enum PublicRequest {
    /// `"GetAutomatoList"`: list the ids of the configured nodes.
    GetAutomatoList,
    /// `"AutomatoMsg"`: perform one transaction with a node.
    AutomatoMsg,
    /// Any other `what`.
    Invalid,
}

/// What a response of the public interface holds.
#[derive(Debug, Clone, PartialEq, Eq)]
pub enum PublicContent {
    /// The ids of the configured nodes.
    Automatos(Vec<u8>),
    /// The reply of a node.
    Message(AutomatoMsg),
    /// The error that a transaction ended with.
    SerialError(Error),
}

/// A response of the public interface before it is turned into text.
#[derive(Debug, Clone, PartialEq, Eq)]
pub struct PublicResponse {
    pub what: String,
    pub content: PublicContent,
}

/// The request that a `what` names.
pub open spec fn spec_public_request(what: Seq<char>) -> PublicRequest {
    if what == "GetAutomatoList"@ {
        PublicRequest::GetAutomatoList
    } else if what == "AutomatoMsg"@ {
        PublicRequest::AutomatoMsg
    } else {
        PublicRequest::Invalid
    }
}

/// The request that a `what` names.
pub fn public_request(what: &str) -> (request: PublicRequest)
    ensures
        request == spec_public_request(what@),
{
    let given = what.to_string();
    if given == "GetAutomatoList".to_string() {
        PublicRequest::GetAutomatoList
    } else if given == "AutomatoMsg".to_string() {
        PublicRequest::AutomatoMsg
    } else {
        PublicRequest::Invalid
    }
}

/// The answer to `"GetAutomatoList"`: `"automatos"` with the configured ids.
pub fn automato_list(config: &Config) -> (response: PublicResponse)
    ensures
        response.what@ == "automatos"@,
        response.content matches PublicContent::Automatos(ids) && ids@ == config.automato_ids@,
{
    PublicResponse {
        what: "automatos".to_string(),
        content: PublicContent::Automatos(config.automato_ids.clone()),
    }
}

/// The answer to `"AutomatoMsg"` once the transaction is over: the reply of
/// the node in structured form as `"automatomsg"`, or the error as
/// `"serial error"`. A reply that is not well formed has no structured form
/// and is answered as the error that the encoder refuses it with.
pub fn transaction_response(outcome: Result<(u8, Payload), Error>) -> (response: PublicResponse)
    ensures
        match outcome {
            Ok((fromid, reply)) => if reply.wf() {
                &&& response.what@ == "automatomsg"@
                &&& response.content matches PublicContent::Message(m)
                &&& m.id == fromid
                &&& m.message@ == reply@
            } else {
                &&& response.what@ == "serial error"@
                &&& response.content matches PublicContent::SerialError(err)
                &&& err.kind == spec_decode_error_kind(encode_error(&reply))
                &&& err.description@ == spec_describe(&err.kind)
            },
            Err(e) => {
                &&& response.what@ == "serial error"@
                &&& response.content matches PublicContent::SerialError(err)
                &&& err == e
            },
        },
{
    let sent = match outcome {
        Ok((fromid, reply)) => match PayloadEnum::from_packed(&reply) {
            Ok(message) => Ok(AutomatoMsg { id: fromid, message }),
            Err(code) => Err(layer_error(decode_error_kind(code))),
        },
        Err(e) => Err(e),
    };
    match sent {
        Ok(msg) => PublicResponse {
            what: "automatomsg".to_string(),
            content: PublicContent::Message(msg),
        },
        Err(e) => PublicResponse {
            what: "serial error".to_string(),
            content: PublicContent::SerialError(e),
        },
    }
}

/// The message for a `what` that names no request.
pub fn invalid_what(what: &str) -> (message: String)
    ensures
        message@ == "invalid 'what' code:'"@ + what@ + "'"@,
{
    let mut message = "invalid 'what' code:'".to_string();
    message.push_str(what);
    message.push_str("'");
    message
}

} // verus!
