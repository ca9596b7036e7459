//! Source-facing index requirements and their normalization into canonical
//! index definitions.

pub mod requirement;

pub use requirement::{IndexRequirement, IndexRequirementValidationError};
