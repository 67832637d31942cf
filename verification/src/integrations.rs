//! Integrations layering structured result decoding over the client.

pub mod serde_integration;
