//! Verified decision logic for driving an AAC encoding engine through a
//! streaming encode session: the error taxonomy of the engine's status codes,
//! the parameter plan and setup sequence of a session, and the per-chunk
//! encode loop.

pub mod error;
pub mod stream;
pub mod config;
pub mod setup;
