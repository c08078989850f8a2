//! Safe Rust side of the AMPS (Advanced Message Processing System) client bindings.
//!
//! The library holds what the bindings decide on their own: which arguments can
//! be handed to the C layer as C strings, how an error record reported by the
//! C layer becomes an [`AmpsError`], how each call's status becomes a result,
//! what text an error displays, and how a received [`Message`] exposes its
//! fields.  The calls into the C layer themselves are made by the `app/` crate.
//!
//! - [`error`]: [`AmpsError`], [`AmpsResult`], the C layer's error record and codes
//! - [`message`]: [`Message`] and its accessors
//! - [`subscription`]: the message handler trait, subscription records and options
//! - [`client`]: C-string conversion and the result of each call
//! - [`chat`]: the chat's settings, filter and message lines
//! - [`text`]: C-string prefixes, UTF-8 decoding and decimal rendering
pub mod chat;
pub mod client;
pub mod error;
pub mod message;
pub mod subscription;
pub mod text;

pub use error::{AmpsError, AmpsResult};
pub use message::Message;
