//! A structured-output agent: it sends a prompt to a completion capability,
//! decodes the reply into a typed output, and on a decoding failure retries
//! with a reflection prompt, up to a fixed budget.

pub mod agent;
pub mod error;
pub mod retry;
pub mod schema;

pub use agent::{Agent, ModelClient};
pub use error::AgentError;
