//! Federation boundary layer for one content type: converts a locally stored
//! post into an addressable wire object ("Page") and converts inbound wire
//! objects back into validated local state, running every trust check
//! (audience publicity, domain ownership, community membership, content
//! safety) before anything is persisted.

pub mod address;
pub mod context;
pub mod convert;
pub mod error;
pub mod laws;
pub mod local;
pub mod sanitize;
pub mod verify;
pub mod wire;

pub use address::Address;
pub use error::ConvertError;
pub use local::{ApubPost, Community, Person, PostForm};
pub use wire::{Page, Source, Tombstone, WireTime};
