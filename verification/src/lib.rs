//! A trait-scoped condition algebra over facts, together with the rewrite
//! pipeline that expands traits, compacts redundant presence checks,
//! suppresses decidable comparisons, and removes boolean literals before a
//! condition is handed to an execution layer.

pub mod bytes;
pub mod condition;
pub mod dispatch;
pub mod eval;
pub mod laws;
pub mod model;
pub mod processing;

pub use condition::Condition;
pub use condition::Value;
