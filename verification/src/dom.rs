//! What the browser answered, turned into what the site goes on with.

pub mod storage;
