//! The decisions and value types behind the GraphQL schema.

pub mod cursor;
pub mod enums;
pub mod pagination;
pub mod types;
pub mod mutation;
pub mod subscription;
