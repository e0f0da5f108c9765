//! What each operation gives, told by what is handed in and what comes back.
//!
//! These laws speak of the operations themselves: `call_ensures` of an operation,
//! its arguments and a result says that the operation may give that result.

pub mod answers;
pub mod encoding;
pub mod errors;
pub mod jobs;
pub mod requests;
pub mod settings;
