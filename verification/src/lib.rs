//! Construction of Bitcoin transaction outputs from a structured,
//! chain-agnostic description of the desired spending condition.
//!
//! The heart of the crate is the output builder, which turns an
//! [`types::Output`] (an amount plus a recipient intent) into the exact
//! `scriptPubkey` bytes of a transaction output, together with the control
//! block and taproot payload needed later for inscription reveals.  Textual
//! addresses are resolved into an equivalent builder variant first and then
//! fed through the same dispatch.
//!
//! A second, independent part of the crate holds the data model of a
//! C-header-to-binding generator: the parsed manifest of a header file and
//! the name mangling used when rendering bindings.

pub mod builder;
pub mod inscription;
pub mod manifest;
pub mod primitives;
pub mod render;
pub mod script;
pub mod types;
