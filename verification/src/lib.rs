//! Logical indexing model: identities, key material, index definitions,
//! versions, and the candidate build/update/rebuild/publication workflow.

pub mod build;
pub mod consistency;
pub mod diagnostic;
pub mod encoding;
pub mod identity;
pub mod index;
pub mod message;
pub mod order;
pub mod requirement;
pub mod text;
