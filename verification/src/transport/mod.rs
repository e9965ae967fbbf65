//! One end of a connection.

pub mod laws;
pub mod misc;
pub mod outcomes;
pub mod socket;

pub use misc::StreamID;
pub use socket::{
    AcceptorKind, Action, Delivery, DuplexSocket, Handler, Handlers, SetupAction, SocketState,
};
