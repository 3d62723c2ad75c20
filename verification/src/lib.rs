//! Bootstrap core of a language-intelligence server.
//!
//! The crate turns a static feature-toggle configuration and an
//! indexing-mode choice into a negotiated capability document, drives the
//! two-phase initialize handshake as an explicit state machine, and decides
//! when the optional indexing worker may be handed new work.  The transport
//! itself (stdio, socket, pipe) and the request-dispatch loop are external
//! collaborators: they hand plain values in and take plain values back.

pub mod capabilities;
pub mod config;
pub mod handshake;
pub mod lifecycle;
