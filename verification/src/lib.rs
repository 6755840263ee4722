//! Domain logic of the Serve social networking backend: error codes,
//! input validation, model enumerations, pagination cursors and the
//! decisions taken by the services and GraphQL resolvers.

pub mod codec;
pub mod ids;
pub mod text;
pub mod time;

pub mod application;
pub mod domain;
pub mod graphql;
