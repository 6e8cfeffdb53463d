//! Session-resilient access to a contest-judging web platform: session
//! handling, name resolution of contests and problems, and an interactive
//! layer that re-authenticates and disambiguates on the caller's behalf.

pub mod display;
pub mod file_token_storage;
pub mod interactive_satori;
pub mod mock;
pub mod page_text;
pub mod parser;
pub mod paths;
pub mod prompt;
pub mod resolution;
pub mod resolve;
pub mod retry;
pub mod satori;
pub mod satori_client;
pub mod simple_satori;
pub mod text;
pub mod token_storage;
