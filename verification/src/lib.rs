//! Decoder for fixed-layout TEE attestation quotes.
//!
//! A quote is a flat binary record produced by trusted-execution-environment
//! hardware: a 48-byte header followed by a body descriptor and a fixed-layout
//! trust-domain report body. This crate decodes such a buffer into a
//! structured record and decomposes the packed TD-attributes word into its
//! named flag groups. Reading the buffer from a file and rendering the record
//! as text are left to callers.

pub mod attributes;
pub mod quote;
