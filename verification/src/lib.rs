//! Core logic of a live audio broadcaster: samples captured from a hardware
//! device are fanned out to independent consumers, accumulated into
//! fixed-size frames, encoded into self-contained chunks, streamed over an
//! authenticated network connection with automatic reconnection, and
//! optionally written to a local recording — all coordinated by a single
//! monotonic shutdown signal.
//!
//! The modules here hold the decision logic of every long-running loop as
//! verified state machines; the surrounding process (device capture, real
//! codec, sockets, files) drives them and performs the actions they return.

pub mod args;
pub mod audio;
pub mod broadcast;
pub mod config;
pub mod encoder;
pub mod pipeline;
pub mod recorder;
pub mod sender;
pub mod shutdown;
pub mod util;
