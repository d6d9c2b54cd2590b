//! Core of a viewer for recorded diagnostic sessions.
//!
//! A session arrives as a compressed archive bundling one plain-text log
//! member and zero or more raw video members. The library tracks the active
//! archive, pulls named members out of it, lazily turns a raw video member
//! into a playable file through an extract, transcode and cache pipeline,
//! and answers streaming media requests for the cached artifacts.
//!
//! All file, dialog and process work is left to the embedding program; the
//! library holds the state, the path derivations, the decoding and the
//! decisions, each under a contract.

pub mod archive;
pub mod codec;
pub mod decimal;
pub mod pathname;
pub mod pipeline;
pub mod protocol;
pub mod session;
