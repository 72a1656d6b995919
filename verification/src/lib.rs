//! The rules of a relay that stands between chat-completion clients and a rollup
//! host speaking hex-wrapped envelopes.
//!
//! A request body is wrapped into an envelope whose `id` spells the body in
//! hexadecimal; the host answers with an envelope result whose `response` is
//! unwrapped the same way. Everything here works on plain values: the caller
//! owns the sockets and hands over what it read.

pub mod envelope;
pub mod gateway;
pub mod hexcode;
pub mod reply;
pub mod text;

pub use envelope::{DecodeError, GIORequest, GIOResponse};
pub use gateway::{
    accept_envelope, begin_completion, finish_completion, liveness, not_found, reply_for_payload,
    route, upstream_url, Inbound, Route, Step, Submission, Upstream,
};
pub use reply::{Content, Reply};
