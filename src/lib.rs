//! Client-side orchestration for a file-scanning service: configuration,
//! session lifecycle, profile selection, upload and task polling, written as
//! a verified state machine whose effects are performed by the embedding
//! application.
pub mod api;
pub mod client;
pub mod decimal;
pub mod model;
pub mod profiles;
pub mod tasks;
