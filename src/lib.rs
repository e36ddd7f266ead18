//! Bridge between a desktop front end and an external command-line
//! language agent: prompt composition, interpretation of the agent's
//! terminated output, and extraction of image URLs from its replies.

pub mod extract;
pub mod process;
pub mod prompt;
pub mod text;
