//! The resource library: namespaces, folder deletion and path changes.

pub mod namespace;
pub mod deletion;
pub mod paths;
