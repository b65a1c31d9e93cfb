//! A small post store: post records (title and content) kept under
//! service-generated ids, with creation, lookup, newest-first listing and
//! partial update, and the mapping of their outcomes to HTTP responses.

pub mod post;
pub mod store;
pub mod ids;
pub mod clock;
pub mod laws;
pub mod dispatch;
pub mod engine;
pub mod html;
pub mod page;
