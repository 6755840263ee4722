//! Entities, enumerations, errors and validation rules of the domain.

pub mod errors;
pub mod models;
pub mod validation;
pub mod events;
