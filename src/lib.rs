//! Command dispatch and image cache for a chat bot that answers with image
//! links: a gallery fetched once at startup serves random picks, and a live
//! meme service answers topic queries.

pub mod text;
pub mod json;
pub mod imgur;
pub mod meme;
pub mod cache;
pub mod select;
pub mod dispatch;
