//! A thin HTTP abstraction layer: interchangeable request backends behind a
//! single trait, plus client wrappers that resolve endpoint URLs against a
//! configured base prefix and attach authorization headers.

pub mod oauth2;
pub mod headers;
pub mod http;
pub mod client;
