//! The catalog layer of an application launcher: reading Apps and Users from
//! a remote record store, keeping Apps in a local cache, and the small
//! decisions around launching an App.

pub mod json;
pub mod fields;
pub mod records;
pub mod cache;
pub mod sync;
pub mod launch;
pub mod icon;
pub mod console;
pub mod window;

pub use fields::{Attachment, SingleSelectField, FieldError};
pub use records::{AppRecord, UserRecord};
pub use sync::SyncError;

