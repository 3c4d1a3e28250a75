//! The logic of a family of sensemaker widgets: memes and papers that agents
//! upload, and the scores that a sensemaker cell keeps for them.
//!
//! Nothing here touches a store or a network. An endpoint of a zome is a
//! conversation: it names one call to its host after the other and decides on
//! each reply what comes next, until it returns. Whoever runs the endpoint
//! makes the calls.
//!
//! - `encoding`, `hash`, `path`: addresses, their base64 forms, and the paths
//!   under which the sensemaker cell keeps its state, with the proof that no
//!   two addresses share a path.
//! - `content`: memes, papers, annotations.
//! - `sensemaker`: the calls that the sensemaker cell takes, as they go over
//!   the wire.
//! - `host`, `response`, `session`: the calls and replies between an endpoint
//!   and its host, and the state of an endpoint between two calls.
//! - `zome`, `memez`, `paperz`: the endpoints.
//! - `conversation`: what holds of whole conversations, whatever the host
//!   answers.
//! - `model`, `roundtrip`: a reference host, and what uploads, listings, sets
//!   and steps come to when they run against it.
//! - `ws`, `widget`: the commands and responses of the conductor's
//!   websockets, and what a widget keeps of its websocket.

pub mod content;
pub mod conversation;
pub mod encoding;
pub mod hash;
pub mod host;
pub mod memez;
pub mod model;
pub mod paperz;
pub mod path;
pub mod response;
pub mod roundtrip;
pub mod sensemaker;
pub mod session;
pub mod widget;
pub mod ws;
pub mod zome;
