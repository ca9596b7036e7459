//! Identity values: index identities, logical namespaces, and definition
//! identities.

pub mod definition;
pub mod index;
pub mod namespace;

pub use index::{IndexId, INDEX_ID_BIT_LEN, INDEX_ID_BYTE_LEN};
pub use namespace::{IndexNamespace, NamespaceValidationError, MAX_NAMESPACE_BYTES};
pub use definition::{IndexDefinitionId, IndexDefinitionIdValidationError, IndexDefinitionIdentity};
pub use namespace::{NamespaceRegistry, NamespaceRegistryError};
