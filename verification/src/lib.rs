//! Safe binding layer for the libyang YANG data-modeling engine.
//!
//! The engine itself — schema compilation, data-tree validation, the XML,
//! JSON and LYB codecs — is an opaque native collaborator.  This crate
//! covers the two parts of a binding to it that carry real design
//! decisions: how a build obtains compatible native signatures and a
//! linkable copy of the engine ([`config`], [`signatures`],
//! [`native_build`] and [`link`]), and how the engine's context-scoped
//! last-error state is turned into an owned, structured error value
//! ([`context`] and [`error`]).

pub mod config;
pub mod context;
pub mod error;
pub mod link;
pub mod native_build;
pub mod signatures;

pub use context::Context;
pub use error::Error;
