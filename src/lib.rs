//! A shared, ordered, de-duplicated and capacity-bounded feed of posts,
//! filled once from a history page and then from a live event stream.
pub mod post;
pub mod feed;
pub mod laws;
pub mod store;
pub mod view;
pub mod wire;
pub mod ingest;
pub mod history;

pub use post::Post;
pub use feed::{AlreadySeededError, CapacityConfigError, Feed};
pub use store::FeedStore;
pub use view::FeedView;
pub use wire::{decode_post, is_create_event, post_from_object, DecodeError, WireField};
pub use ingest::{IngestSession, IngestStep, StreamError, StreamEvent};
pub use history::{decode_history, history_from_objects, FetchError};
