//! Request handling for a PNG optimisation service.

pub mod chunks;
pub mod cors;
pub mod engine;
pub mod error;
pub mod form;
pub mod laws;
pub mod log;
pub mod method;
pub mod mode;
pub mod preflight;
pub mod response;
pub mod router;
pub mod signature;
pub mod text;
pub mod upload;
