//! The frames that two peers exchange.

pub mod bodies;
pub mod outcomes;
pub mod request_channel;
pub mod utils;

pub use bodies::{
    Body, Error, Keepalive, Lease, MetadataPush, Payload, RequestFNF, RequestN, RequestResponse,
    RequestStream, Resume, ResumeOK, Setup,
};
pub use request_channel::{
    RequestChannel, RequestChannelBuilder, RequestChannelBuilderValue, RequestChannelValue,
};
pub use utils::{read_payload, too_short, PayloadSupport};

use vstd::prelude::*;

verus! {

/// The largest number of items that a requester can ask for, which stands for "no limit".
pub const REQUEST_MAX: u32 = 0x7FFF_FFFF;

/// The error code of a failure in the application that answers a request.
pub const ERR_APPLICATION: u32 = 0x0000_0201;

/// One frame: the stream that it belongs to, its flags, and its body.
#[derive(Debug, PartialEq)]
pub struct Frame {
    pub stream_id: u32,
    pub body: Body,
    pub flag: u16,
}

/// Whether `flag` has the bit `bit` set.
pub open spec fn has_flag(flag: u16, bit: u16) -> bool {
    flag & bit != 0
}

impl Frame {
    /// The frame carries an item of a stream.
    pub const FLAG_NEXT: u16 = 0x0020;

    /// The stream ends with this frame.
    pub const FLAG_COMPLETE: u16 = 0x0040;

    /// The sender of a keepalive frame wants an answer.
    pub const FLAG_RESPOND: u16 = 0x0080;

    /// The frame carries metadata.
    pub const FLAG_METADATA: u16 = 0x0100;

    /// Puts a frame together.
    pub fn new(stream_id: u32, body: Body, flag: u16) -> (r: Frame)
        ensures
            r == (Frame { stream_id, body, flag }),
    {
        Frame { stream_id, body, flag }
    }

    /// The stream that this frame belongs to.
    pub fn get_stream_id(&self) -> (r: u32)
        ensures
            r == self.stream_id,
    {
        self.stream_id
    }

    /// The flags of this frame.
    pub fn get_flag(&self) -> (r: u16)
        ensures
            r == self.flag,
    {
        self.flag
    }

    /// The body of this frame.
    pub fn get_body(self) -> (r: Body)
        ensures
            r == self.body,
    {
        self.body
    }
}

} // verus!
