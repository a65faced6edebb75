//! A small HTTP control-plane/gateway library: a reloadable endpoint
//! configuration store, a forwarder that translates inbound requests into
//! outbound calls against configured upstream targets, and the pure payload
//! logic of the fixed introspection handlers.

pub mod config;
pub mod errors;
pub mod forward;
pub mod handlers;
pub mod http;
pub mod json;
pub mod laws;
pub mod metrics;
pub mod state;
pub mod text;

pub use config::Endpoint;
pub use config::EndpointConfig;
pub use config::EndpointConfigView;
pub use config::EndpointView;
pub use state::State;

pub use errors::ConfigError;
pub use errors::RestError;
pub use http::Header;
pub use http::HeaderView;
pub use http::InboundRequest;
pub use http::InboundRequestView;
pub use http::Method;

