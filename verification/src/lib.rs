//! Core logic of a small desktop launcher: the news-feed data model, a
//! verified decoder for the feed's JSON envelope, and the application-state
//! reducer that drives window dragging, feed refresh and window lifecycle.
//!
//! All I/O (the HTTP fetch, the widget toolkit, process launch) lives outside
//! this crate; callers hand in plain values and apply the returned state.

pub mod decode;
pub mod grammar;
pub mod item;
pub mod state;

pub use decode::FetchError;
pub use decode::decode_news_body;
pub use decode::process_response;
pub use item::UpdateItem;
pub use item::UpdateItemView;
