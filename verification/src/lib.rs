//! The core of a small HTTP request tool: the bridge that carries transport
//! outcomes to a single-threaded presentation loop, and the policy that turns
//! an outcome into the text shown to the user.

pub mod app;
pub mod channel;
pub mod json;
pub mod outcome;
pub mod processor;
pub mod state;

pub use app::ReqtApp;
pub use channel::ResultChannel;
pub use outcome::{Method, PendingRequest, TransportOutcome};
pub use processor::{process, Decoded};
pub use state::ReqtAppState;
