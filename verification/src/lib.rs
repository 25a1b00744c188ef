//! Bridge between a simple alias-provider API and a cookie-authenticated
//! mail-forwarding service: credential resolution, the three-call session
//! protocol, and the translation of a reserved alias into the provider shape.

pub mod admin;
pub mod alias;
pub mod bridge;
pub mod cookies;
pub mod credentials;
pub mod icloud;
pub mod json;
pub mod resolver;
pub mod text;
pub mod token;
