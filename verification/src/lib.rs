//! Locating objects on PKCS #11 tokens by `pkcs11:` URI (RFC 7512).
//!
//! The crate parses the textual form of such a URI into typed attributes and
//! uses them to pick exactly one slot and exactly one object of a module.

pub mod text;
pub mod codec;
pub mod values;
pub mod attributes;
pub mod uri;
pub mod resolve;
pub mod module;

pub use crate::attributes::{ParseError, PathAttributes, QueryAttributes};
pub use crate::module::{Context, Module, ObjectHandle, SessionHandle, SlotId};
pub use crate::resolve::{PinRequest, ResolutionError};
pub use crate::text::split_once;
pub use crate::uri::Pkcs11Uri;
pub use crate::values::{ObjectClass, Version};
