//! A number-guessing engine: the player thinks of a number in a fixed
//! interval, and the engine finds it by bisection within a fixed number of
//! attempts.
//!
//! The engine is a state machine that is driven by lines of input and answers
//! with the messages to show. It performs no input or output of its own.

pub mod engine;
pub mod output;
pub mod play;
pub mod response;
pub mod search;

pub use engine::{Engine, Phase, State};
pub use output::Output;
pub use response::Response;
pub use search::{predict_num, MAX_ATTEMPTS, START_HIGHEST, START_LOWEST};
