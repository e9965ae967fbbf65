# rsocket

The framing and connection logic of the [RSocket](https://rsocket.io) protocol, written in Rust
and proved with Verus.

* `src/frame` holds the frames and reads and writes the body of a `REQUEST_CHANNEL` frame.
* `src/transport` decides what one end of a connection does with each request of its user and each
  frame of its peer. `src/transport/laws.rs` states what holds of a connection as a whole.
* `src/payload.rs`, `src/errors.rs` and `src/utils.rs` hold what these share.
* `src/buf.rs` states what is believed of the `bytes` crate; everything else in `src` is proved.
* `app` carries the decisions out over tokio's channels.
