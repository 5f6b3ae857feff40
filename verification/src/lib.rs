//! Client-side protocol layer for a desktop session broker reached over a
//! message bus: tagged-union decoding of response notifications, correlation
//! of a pending request with the single notification that resolves it, and
//! the state machine that turns a start-operation call into a session handle.

pub mod address;
pub mod error;
pub mod request;
pub mod response;
pub mod screencast;
pub mod session;
pub mod wire;

pub use error::Error;
pub use response::ResponseError;
