//! Analysis and synthesis behind a derived `Debug` rendering: from the
//! structural description of a record type to the description of the
//! rendering function generated for it.
pub mod description;
pub mod extract;
pub mod annotation;
pub mod plan;
pub mod constraints;
pub mod generate;
pub mod laws;
