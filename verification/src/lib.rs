//! Scheme-redirect middleware core: classifies the peer address family,
//! decides whether a plaintext request must be redirected to the HTTPS
//! endpoint, builds the redirect target, and decorates responses with a
//! Strict-Transport-Security header.

pub mod address;
pub mod data;
pub mod decimal;
pub mod middleware;
pub mod response;
pub mod uri;
