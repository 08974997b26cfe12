//! A client that validates signed bearer tokens (JWT) against the public
//! keys that an identity provider publishes as a JSON Web Key Set.
//!
//! The key set is refreshed before validation once it is older than a
//! configurable interval, and again (at most once per call, and at most once
//! per cooldown) when a validation attempt fails.

pub mod client;
pub mod error;
pub mod external;
pub mod key_cache;
pub mod refresh_policy;

pub use client::{Action, Event, JwkClient, RefreshKind, ValidationState};
pub use error::JwkClientErr;
pub use key_cache::{JwkRaw, KeyCache};
