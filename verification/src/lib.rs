//! A registry of property records, each tied to the content digest of an
//! uploaded image.
//!
//! The digest is SHA-256 rendered as lowercase hexadecimal ([`digest`]). The
//! registry ([`platform`]) is an explicitly owned store keyed by a
//! caller-supplied identifier; callers that share it wrap it in a lock of
//! their own. [`model`] describes the registry as a mathematical map, and
//! [`laws`] proves what holds of its operations taken together.

pub mod digest;
pub mod error;
pub mod laws;
pub mod model;
pub mod platform;
pub mod property;

pub use digest::hash_image;
pub use error::UploadError;
pub use platform::DecentralizedPlatform;
pub use property::{Property, PropertyType};
