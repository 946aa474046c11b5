//! Login through an OpenID Connect identity provider.
pub mod callback;
pub mod flow;
pub mod google;
pub mod session;
pub mod store;
