//! Core of a minimal conversational client: assembling a stored turn history
//! together with a new user message into an ordered request, aggregating a
//! streamed response from incremental fragments, and committing completed
//! exchanges to the session history.
//!
//! The remote transport, configuration persistence and live output sink are
//! external collaborators: they hand plain values in and take plain values
//! out, and everything in between is specified and verified here.

pub mod assemble;
pub mod collector;
pub mod error;
pub mod msg;
pub mod session;

pub use assemble::assemble;
pub use collector::{Phase, StreamCollector};
pub use error::Error;
pub use msg::{HistoryItem, Message, Role};
pub use session::{Config, Core, PromptManager};
