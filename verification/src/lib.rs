//! Coordination of short-lived, multi-party recording sessions.
//!
//! A host opens a session, guests upload audio fragments tagged with the
//! session's code, and the host collects the fragments once the session is
//! finished. Observers of a session are told in real time when it finishes.
//!
//! - [`session`]: the model of one session and the laws of its lifecycle.
//! - [`detector`]: the rule that decides when a session is complete.
//! - [`registry`]: the owner of all sessions, and the operations on them.
//! - [`hub`]: the multicast channel that notifies a session's observers.
//! - [`stream`]: what one observer's event stream does with each event.
//! - [`codes`]: random session codes.
//! - [`request`]: the route and the numbers of a request.
//! - [`handlers`]: one operation per route, from plain values to a reply.
//! - [`pipeline`]: arguments and results of the external audio process.
//! - [`error`]: the kinds of failure.
//! - [`text`]: comparison of texts.

pub mod codes;
pub mod detector;
pub mod error;
pub mod handlers;
pub mod hub;
pub mod pipeline;
pub mod registry;
pub mod request;
pub mod session;
pub mod stream;
pub mod text;
