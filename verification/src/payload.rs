//! What applications hand to and get from a connection.

use crate::frame::{self, MetadataPush, RequestFNF, RequestResponse, RequestStream, Setup};
use bytes::Bytes;
use std::time::Duration;
use vstd::prelude::*;

verus! {

/// Data and metadata of a request or of an answer.
#[derive(Debug, PartialEq)]
pub struct Payload {
    pub metadata: Option<Bytes>,
    pub data: Option<Bytes>,
}

/// What an application hands over when it opens a connection. A MIME type that is absent is the
/// default one.
#[derive(Debug, PartialEq)]
pub struct SetupPayload {
    pub metadata: Option<Bytes>,
    pub data: Option<Bytes>,
    pub data_mime_type: Option<String>,
    pub metadata_mime_type: Option<String>,
    pub keepalive_interval: Duration,
    pub keepalive_lifetime: Duration,
}

impl Payload {
    /// The data and the metadata, in this order.
    pub fn split(self) -> (r: (Option<Bytes>, Option<Bytes>))
        ensures
            r == (self.data, self.metadata),
    {
        (self.data, self.metadata)
    }
}

impl From<MetadataPush> for Payload {
    fn from(v: MetadataPush) -> (r: Payload) {
        Payload { metadata: v.metadata, data: None }
    }
}

impl vstd::std_specs::convert::FromSpecImpl<MetadataPush> for Payload {
    open spec fn obeys_from_spec() -> bool {
        true
    }

    open spec fn from_spec(v: MetadataPush) -> Payload {
        Payload { metadata: v.metadata, data: None }
    }
}

impl From<RequestFNF> for Payload {
    fn from(v: RequestFNF) -> (r: Payload) {
        Payload { metadata: v.metadata, data: v.data }
    }
}

impl vstd::std_specs::convert::FromSpecImpl<RequestFNF> for Payload {
    open spec fn obeys_from_spec() -> bool {
        true
    }

    open spec fn from_spec(v: RequestFNF) -> Payload {
        Payload { metadata: v.metadata, data: v.data }
    }
}

impl From<RequestResponse> for Payload {
    fn from(v: RequestResponse) -> (r: Payload) {
        Payload { metadata: v.metadata, data: v.data }
    }
}

impl vstd::std_specs::convert::FromSpecImpl<RequestResponse> for Payload {
    open spec fn obeys_from_spec() -> bool {
        true
    }

    open spec fn from_spec(v: RequestResponse) -> Payload {
        Payload { metadata: v.metadata, data: v.data }
    }
}

impl From<RequestStream> for Payload {
    fn from(v: RequestStream) -> (r: Payload) {
        Payload { metadata: v.metadata, data: v.data }
    }
}

impl vstd::std_specs::convert::FromSpecImpl<RequestStream> for Payload {
    open spec fn obeys_from_spec() -> bool {
        true
    }

    open spec fn from_spec(v: RequestStream) -> Payload {
        Payload { metadata: v.metadata, data: v.data }
    }
}

impl From<frame::Payload> for Payload {
    fn from(v: frame::Payload) -> (r: Payload) {
        Payload { metadata: v.metadata, data: v.data }
    }
}

impl vstd::std_specs::convert::FromSpecImpl<frame::Payload> for Payload {
    open spec fn obeys_from_spec() -> bool {
        true
    }

    open spec fn from_spec(v: frame::Payload) -> Payload {
        Payload { metadata: v.metadata, data: v.data }
    }
}

impl From<Setup> for SetupPayload {
    fn from(v: Setup) -> (r: SetupPayload) {
        SetupPayload {
            metadata: v.metadata,
            data: v.data,
            data_mime_type: v.mime_data,
            metadata_mime_type: v.mime_metadata,
            keepalive_interval: v.keepalive,
            keepalive_lifetime: v.lifetime,
        }
    }
}

impl vstd::std_specs::convert::FromSpecImpl<Setup> for SetupPayload {
    open spec fn obeys_from_spec() -> bool {
        true
    }

    open spec fn from_spec(v: Setup) -> SetupPayload {
        SetupPayload {
            metadata: v.metadata,
            data: v.data,
            data_mime_type: v.mime_data,
            metadata_mime_type: v.mime_metadata,
            keepalive_interval: v.keepalive,
            keepalive_lifetime: v.lifetime,
        }
    }
}

/// A payload is split into its data and its metadata, in this order.
pub proof fn split_gives_data_then_metadata(p: Payload, r: (Option<Bytes>, Option<Bytes>))
    requires
        call_ensures(Payload::split, (p,), r),
    ensures
        r.0 == p.data,
        r.1 == p.metadata,
{
}

/// The payload of a push of metadata has its metadata, and no data.
pub proof fn payload_of_metadata_push(v: MetadataPush, r: Payload)
    requires
        call_ensures(<Payload as From<MetadataPush>>::from, (v,), r),
    ensures
        r.metadata == v.metadata,
        r.data is None,
{
}

/// The payload of a request without an answer has its data as data and its metadata as metadata.
pub proof fn payload_of_request_fnf(v: RequestFNF, r: Payload)
    requires
        call_ensures(<Payload as From<RequestFNF>>::from, (v,), r),
    ensures
        r.data == v.data,
        r.metadata == v.metadata,
{
}

/// The payload of a request for one answer has its data as data and its metadata as metadata.
pub proof fn payload_of_request_response(v: RequestResponse, r: Payload)
    requires
        call_ensures(<Payload as From<RequestResponse>>::from, (v,), r),
    ensures
        r.data == v.data,
        r.metadata == v.metadata,
{
}

/// The payload of a request for a stream has its data as data and its metadata as metadata.
pub proof fn payload_of_request_stream(v: RequestStream, r: Payload)
    requires
        call_ensures(<Payload as From<RequestStream>>::from, (v,), r),
    ensures
        r.data == v.data,
        r.metadata == v.metadata,
{
}

/// The payload of an answer has its data as data and its metadata as metadata.
pub proof fn payload_of_answer(v: frame::Payload, r: Payload)
    requires
        call_ensures(<Payload as From<frame::Payload>>::from, (v,), r),
    ensures
        r.data == v.data,
        r.metadata == v.metadata,
{
}

/// The payload of a setup has each of its parts in its own place.
pub proof fn payload_of_setup(v: Setup, r: SetupPayload)
    requires
        call_ensures(<SetupPayload as From<Setup>>::from, (v,), r),
    ensures
        r.data == v.data,
        r.metadata == v.metadata,
        r.data_mime_type == v.mime_data,
        r.metadata_mime_type == v.mime_metadata,
        r.keepalive_interval == v.keepalive,
        r.keepalive_lifetime == v.lifetime,
{
}

} // verus!
