//! Key custody for an offline code-signing keystore backed by a hardware
//! security module: share encoding, threshold splitting and recovery of the
//! wrap key, the ordered personalization ceremony, and the planning of
//! certificate-authority bootstrap and signing.
//!
//! The library decides and computes; it performs no input or output. A driver
//! hands it plain values and carries out the actions it returns.

pub mod batch;
pub mod ca;
pub mod ceremony;
pub mod config;
pub mod credentials;
pub mod device;
pub mod disclosure;
pub mod engine;
pub mod error;
pub mod hexcodec;
pub mod hsm;
pub mod orchestrate;
pub mod policy;
pub mod scalar;
pub mod secret;
pub mod share;
pub mod shares;
pub mod sharing;
pub mod text;
pub mod vsss;
