//! A platform-abstraction layer for driving an external audio engine.
//!
//! The engine itself (mixing, DSP, bank files) is an opaque black box that the
//! surrounding application reaches through its public query/command surface.
//! This crate holds everything the abstraction decides for itself, with proofs:
//!
//! - the backend-loading state machine that produces a usable backend from a
//!   sequence of engine replies, reaching exactly one terminal outcome;
//! - the backend session model: event lookup by path, event enumeration in
//!   bank-load order, listener-set planning with truncation to the engine
//!   maximum, and global parameter commands;
//! - the resource lifecycle: event instances are created from descriptions and
//!   consumed exactly once by `release`, so use-after-release is a compile-time
//!   error;
//! - the pure 2D-to-3D spatial attribute transform (axis flip, unit scaling,
//!   fixed forward/up basis vectors), in exact fixed-point arithmetic;
//! - the classification of engine diagnostic callbacks into severity and kind.
//!
//! The unverified application shell performs the actual engine calls, the
//! filesystem checks and the terminal I/O, and feeds their results back into
//! these state machines as plain values.

pub mod backend;
pub mod bridge;
pub mod errors;
pub mod events;
pub mod listener;
pub mod loader;
pub mod session;
pub mod spatial;
