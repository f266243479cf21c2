//! Helpers around the binding layer.
pub mod load;
