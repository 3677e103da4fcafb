//! A build-time compiler for a small data-definition language.
//!
//! Declarations of enumerated types and per-variant property tables are
//! parsed from text ([`parse`]), aggregated into a registry and expanded
//! ([`frontend`], [`expand`]), and finally turned into source text for the
//! declared enums and their accessor functions ([`backend`]).

pub mod model;
pub mod text;
pub mod parse;
pub mod frontend;
pub mod expand;
pub mod backend;
pub mod laws;
pub mod tool;
