//! A chat-room quote bot: classifies session events, routes bang commands,
//! drives quote retrieval with bounded retries, and formats stored quotes.

pub mod text;
pub mod chance;
pub mod quote;
pub mod failure;
pub mod retrieve;
pub mod router;
pub mod session;
