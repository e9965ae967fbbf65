//! The frame bodies.

use super::RequestChannel;
use bytes::Bytes;
use std::time::Duration;
use vstd::prelude::*;

verus! {

/// Opens a connection. A MIME type that is absent is the default one.
#[derive(Debug, PartialEq)]
pub struct Setup {
    pub keepalive: Duration,
    pub lifetime: Duration,
    pub mime_metadata: Option<String>,
    pub mime_data: Option<String>,
    pub metadata: Option<Bytes>,
    pub data: Option<Bytes>,
}

/// Takes up a connection that was lost.
#[derive(Debug, PartialEq)]
pub struct Resume {
    pub token: Option<Bytes>,
    pub last_received_position: u64,
    pub first_available_position: u64,
}

/// Agrees to a [`Resume`].
#[derive(Debug, PartialEq)]
pub struct ResumeOK {
    pub position: u64,
}

/// Metadata of the connection itself.
#[derive(Debug, PartialEq)]
pub struct MetadataPush {
    pub metadata: Option<Bytes>,
}

/// A request that no answer is wanted for.
#[derive(Debug, PartialEq)]
pub struct RequestFNF {
    pub metadata: Option<Bytes>,
    pub data: Option<Bytes>,
}

/// A request for one answer.
#[derive(Debug, PartialEq)]
pub struct RequestResponse {
    pub metadata: Option<Bytes>,
    pub data: Option<Bytes>,
}

/// A request for a stream of answers.
#[derive(Debug, PartialEq)]
pub struct RequestStream {
    pub initial_request_n: u32,
    pub metadata: Option<Bytes>,
    pub data: Option<Bytes>,
}

/// An answer.
#[derive(Debug, PartialEq)]
pub struct Payload {
    pub metadata: Option<Bytes>,
    pub data: Option<Bytes>,
}

/// Shows that the sender is alive.
#[derive(Debug, PartialEq)]
pub struct Keepalive {
    pub last_received_position: u64,
    pub data: Option<Bytes>,
}

/// Asks for `n` more items.
#[derive(Debug, PartialEq)]
pub struct RequestN {
    pub n: u32,
}

/// Reports a failure.
#[derive(Debug, PartialEq)]
pub struct Error {
    pub code: u32,
    pub data: Option<Bytes>,
}

/// Allows a number of requests for some time.
#[derive(Debug, PartialEq)]
pub struct Lease {
    pub ttl: u32,
    pub number_of_requests: u32,
    pub metadata: Option<Bytes>,
}

/// The body of a frame, by the type of the frame.
#[derive(Debug, PartialEq)]
pub enum Body {
    Setup(Setup),
    Lease(Lease),
    Keepalive(Keepalive),
    RequestResponse(RequestResponse),
    RequestFNF(RequestFNF),
    RequestStream(RequestStream),
    RequestChannel(RequestChannel),
    RequestN(RequestN),
    Cancel(),
    Payload(Payload),
    Error(Error),
    MetadataPush(MetadataPush),
    Resume(Resume),
    ResumeOK(ResumeOK),
}

} // verus!
