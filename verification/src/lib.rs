//! Framing and connection logic of the RSocket protocol.
//!
//! * [`frame`] holds the frames that two peers exchange, and reads and writes the body of a
//!   `REQUEST_CHANNEL` frame.
//! * [`transport`] decides what one end of a connection does with each request of its user and
//!   with each frame of its peer.
//! * [`payload`] and [`errors`] hold what the two have in common.
//! * [`buf`] states what is believed of the `bytes` crate.

pub mod buf;
pub mod errors;
pub mod frame;
pub mod payload;
pub mod transport;
pub mod utils;
