//! A volatile, single-owner key-value store over text keys and text values.

pub mod laws;
pub mod model;
pub mod store;

pub use model::lookup;
pub use store::KvStore;
