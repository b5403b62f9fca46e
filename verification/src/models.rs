//! Request, response and row models. Field names follow the public server's
//! OpenAPI schemas.

pub mod auth;
pub mod records;
pub mod pagination;
pub mod request;
pub mod response;
