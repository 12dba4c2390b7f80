//! Gate.io REST gateway: request shaping, request signing, response decoding
//! and the retry and endpoint configuration of the dispatch pipeline.
pub mod error;
pub mod key;
pub mod request;
pub mod response;
pub mod retry;
pub mod layer;
pub mod service;
