//! Instrument data: the model, the registry read from the bank
//! format, and the local repository.

pub mod model;
pub mod registry;
pub mod repository;
