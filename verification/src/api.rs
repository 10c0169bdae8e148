//! The boundary to the scanner backends.
//!
//! The gateway does not talk to a backend itself. It decides what is to be
//! asked, as a [`BackendRequest`], and leaves the exchange to its caller, who
//! hands back what the backend answered.

use vstd::prelude::*;
use vstd::string::*;
use crate::json::{result_view, Json, JsonValue};
use crate::text::{appended, decimal, decimal_text};
use crate::wire::{parse_json, parsed_json};

pub mod nmap;
pub mod openvas;

verus! {

/// How a backend is addressed.
#[derive(Debug, Clone, Copy, PartialEq, Eq)]
pub enum HttpMethod {
    Get,
    Post,
}

/// One exchange with a backend, as the gateway asks for it.
#[derive(Debug, Clone, PartialEq, Eq)]
pub struct BackendRequest {
    pub method: HttpMethod,
    pub url: String,
    /// The JSON body to send, where there is one.
    pub body: Option<Json>,
}

/// The content of a [`BackendRequest`].
pub struct BackendRequestView {
    pub method: HttpMethod,
    pub url: Seq<char>,
    pub body: Option<JsonValue>,
}

impl View for BackendRequest {
    type V = BackendRequestView;

    open spec fn view(&self) -> BackendRequestView {
        BackendRequestView {
            method: self.method,
            url: self.url@,
            body: match self.body {
                Some(body) => Some(body@),
                None => None,
            },
        }
    }
}

/// What a backend answered: the status of the exchange, and the text of
/// the body.
#[derive(Debug, Clone, PartialEq, Eq)]
pub struct BackendReply {
    pub status: u16,
    pub body: String,
}

/// The content of a [`BackendReply`].
pub struct BackendReplyView {
    pub status: u16,
    pub body: Seq<char>,
}

impl View for BackendReply {
    type V = BackendReplyView;

    open spec fn view(&self) -> BackendReplyView {
        BackendReplyView { status: self.status, body: self.body@ }
    }
}

/// The content of what became of an exchange: the answer, or the message
/// of the failure to get one.
pub open spec fn exchange_view(exchange: Result<BackendReply, String>) -> Result<
    BackendReplyView,
    Seq<char>,
> {
    match exchange {
        Ok(reply) => Ok(reply@),
        Err(message) => Err(message@),
    }
}

/// Whether a status reports success: the statuses from 200 to 299 do.
pub open spec fn successful(status: u16) -> bool {
    200 <= status < 300
}

/// The failure of an exchange that ended with an unsuccessful status.
pub open spec fn status_failure(status: u16) -> Seq<char> {
    "backend answered with status "@ + decimal(status as nat)
}

/// The failure of an exchange whose answer holds no JSON value.
pub open spec fn body_failure() -> Seq<char> {
    "backend answered with a body that is no JSON"@
}

/// What an answer of a backend comes to: the value that its body holds
/// where the status reports success and the body holds a JSON value, a
/// failure in every other case.
pub open spec fn reply_result(status: u16, body: Seq<char>) -> Result<JsonValue, Seq<char>> {
    if !successful(status) {
        Err(status_failure(status))
    } else {
        match parsed_json(body) {
            Some(value) => Ok(value),
            None => Err(body_failure()),
        }
    }
}

/// What an exchange comes to for the tool that asked for it: what the
/// answer comes to, or the failure to get an answer.
pub open spec fn exchange_result(exchange: Result<BackendReplyView, Seq<char>>) -> Result<
    JsonValue,
    Seq<char>,
> {
    match exchange {
        Ok(reply) => reply_result(reply.status, reply.body),
        Err(message) => Err(message),
    }
}

/// What an exchange comes to for the tool that asked for it. Whatever is
/// no successful answer with a JSON body is a failure of the tool.
pub fn exchange_outcome(exchange: Result<BackendReply, String>) -> (outcome: Result<Json, String>)
    ensures
        result_view(outcome) == exchange_result(exchange_view(exchange)),
{
    match exchange {
        Ok(reply) => reply.outcome(),
        Err(message) => Err(message),
    }
}

impl BackendReply {
    /// What this answer comes to for the tool that asked. A status that
    /// does not report success is a failure whatever the body holds.
    pub fn outcome(self) -> (outcome: Result<Json, String>)
        ensures
            result_view(outcome) == reply_result(self.status, self.body@),
    {
        if self.status < 200 || self.status >= 300 {
            Err(appended("backend answered with status ", decimal_text(self.status as u64).as_str()))
        } else {
            match parse_json(self.body.as_str()) {
                Some(value) => Ok(value),
                None => Err("backend answered with a body that is no JSON".to_owned()),
            }
        }
    }
}

impl BackendRequestView {
    /// A request that only fetches.
    pub open spec fn get(url: Seq<char>) -> BackendRequestView {
        BackendRequestView { method: HttpMethod::Get, url, body: None }
    }

    /// A request that sends a JSON body.
    pub open spec fn post(url: Seq<char>, body: JsonValue) -> BackendRequestView {
        BackendRequestView { method: HttpMethod::Post, url, body: Some(body) }
    }
}

impl BackendRequest {
    /// A request that only fetches.
    pub fn get(url: &str) -> (request: BackendRequest)
        ensures
            request@ == BackendRequestView::get(url@),
    {
        BackendRequest { method: HttpMethod::Get, url: url.to_owned(), body: None }
    }

    /// A request that sends a JSON body.
    pub fn post(url: &str, body: Json) -> (request: BackendRequest)
        ensures
            request@ == BackendRequestView::post(url@, body@),
    {
        BackendRequest { method: HttpMethod::Post, url: url.to_owned(), body: Some(body) }
    }
}

} // verus!
