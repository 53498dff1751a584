//! A TLS-terminating listener core: certificate and key material, trust
//! anchors for peer verification, the listener configuration and the
//! acceptor's decisions, together with the helpers that serve the bundled
//! API documentation pages.
pub mod acceptor;
pub mod config;
pub mod keycert;
pub mod pem;
pub mod swagger_ui;
pub mod text;
pub mod trust_anchor;
