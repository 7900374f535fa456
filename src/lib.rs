//! Event-sourced persistence and causal-identity core of the location domain.
//!
//! - [`identity`]: message / correlation / causation identifiers, causal
//!   chains, and event metadata.
//! - [`envelope`]: the event envelope, messages, routing keys, and the check
//!   that a batch continues an aggregate's history.
//! - [`wire`]: the envelope's wire form and its decoding.
//! - [`subjects`]: the subject algebra used for publishing and subscribing.
//! - [`value_objects`], [`virtual_location`]: addresses, coordinates, URLs,
//!   IP addresses.
//! - [`events`], [`location`]: the location aggregate, its events and the
//!   fold step.
//! - [`repository`]: reconstruction of a location from its history.

pub mod identity;
pub mod subjects;
pub mod value_objects;
pub mod virtual_location;
pub mod events;
pub mod location;
pub mod repository;
pub mod envelope;
pub mod wire;
