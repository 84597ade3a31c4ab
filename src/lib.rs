//! Retrying a fallible operation: call it until it succeeds or the attempt
//! budget is spent, and hand back either the first success or every error in
//! the order the attempts failed.
pub mod error;
pub mod laws;
pub mod model;
pub mod run;
pub mod state;

pub use error::RetryError;
pub use run::{retry, retry_with_wait};
pub use state::{RetryState, Step};
