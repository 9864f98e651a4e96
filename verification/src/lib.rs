//! A rotating playback controller for live streams.
//!
//! The library is the decision core of a small player that resolves one or
//! two channel identifiers to playable URLs, hands the first URL to a media
//! backend, and then cycles through the sources on a fixed timer until the
//! backend reports end-of-stream or an error.  Everything the controller
//! decides is expressed as plain values: the embedding program performs the
//! resolver call, drives the event loop, and applies the returned backend
//! commands to the real pipeline.

pub mod cli;
pub mod controller;
pub mod resolver;
