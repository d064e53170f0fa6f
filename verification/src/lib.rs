//! A source-based package build pipeline.
//!
//! A package manifest names remote source archives and an ordered list of
//! build steps. The library resolves the `%{name}` placeholders of a source
//! URL, checks downloaded bytes against the declared checksum, picks the
//! decoder of an archive from its file name, and decides, event by event,
//! what a build does next. Reading files, talking to the network and starting
//! processes are left to the caller, which reports their outcomes back.

pub mod text;

pub mod error;

pub mod package;

pub mod substitute;

pub mod checksum;

pub mod extract;

pub mod fetch;

pub mod commands;

pub mod pipeline;

pub use crate::checksum::check_hash;
pub use crate::substitute::replace_vars;
