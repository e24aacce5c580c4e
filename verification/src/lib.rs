//! Safe views and a plugin bridge for a native constraint-optimization engine.
//!
//! The engine's state is held as plain records in an [`engine::Context`],
//! which is shared by reference count. A [`variable::Variable`], a
//! [`col::Col`] or a [`row::Row`] is a place in such a context together with
//! a share in it, so a view keeps its context alive and never reads outside
//! it. A [`model::Model`] is a session on a context, tagged with its phase.
//! Heuristics are kept in a [`registry::Registry`], which answers the
//! engine's calls and hands back the engine's result codes.

pub mod col;
pub mod double;
pub mod engine;
pub mod heuristic;
pub mod model;
pub mod registry;
pub mod row;
pub mod variable;

pub use col::Col;
pub use double::Double;
pub use engine::Context;
pub use heuristic::HeurResult;
pub use heuristic::HeurTiming;
pub use heuristic::Heuristic;
pub use model::Model;
pub use registry::Registry;
pub use row::BasisStatus;
pub use row::Row;
pub use variable::VarStatus;
pub use variable::VarType;
pub use variable::Variable;
