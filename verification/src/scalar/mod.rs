//! The scalar functions of the worker, registered under `charset.main`.
pub mod detect;
pub mod decode;
pub mod encode;
pub mod laws;
