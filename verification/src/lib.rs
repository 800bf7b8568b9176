//! Durable storage of an editor workspace: the document model, its JSON
//! form, and the file protocol that saves and loads it.

pub mod codec;
pub mod dict;
pub mod disk;
pub mod error;
pub mod json;
pub mod load;
pub mod model;
pub mod names;
pub mod protocol;
pub mod save;
pub mod schema;
