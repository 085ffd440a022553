//! Credential identity, access-policy and search rules for the native Apple
//! secure stores.
//!
//! The crate decides; it never touches a secure store itself. Each operation
//! on a credential or a store is split into the request that is to be put to
//! the platform and the reading of the platform's answer. The caller carries
//! the request to the platform and hands the answer back as plain values.

pub mod attributes;
pub mod error;
pub mod instance;
pub mod keychain;
pub mod model;
pub mod persistence;
pub mod platform;
pub mod protected;
pub mod text;
