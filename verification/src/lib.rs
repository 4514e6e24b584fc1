//! Name bindings, fixed-length sequences and the text-to-integer pipeline,
//! each with a machine-checked contract.

pub mod binding;
pub mod data_types;
pub mod error;
pub mod non_primitives;
pub mod pipeline;
pub mod record;
pub mod scope;
pub mod sequence;
pub mod text;
pub mod variables;
