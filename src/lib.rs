//! A first-in-first-out queue of user comments, and a greeting helper.
pub mod greeting;
pub mod laws;
pub mod queue;

pub use greeting::greet;
pub use queue::{Comment, CommentQueue};
