//! Shared helpers for the FDO servers: where each server finds its layered
//! configuration, validated absolute paths, store metadata keys, and the
//! conversion of YAML value trees into CBOR value trees.

pub mod convert;
pub mod metadata;
pub mod path;
pub mod settings;
