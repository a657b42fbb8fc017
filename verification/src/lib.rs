//! The revision and invalidation engine of a collaborative wiki.
//!
//! Pages have a history of immutable, numbered revisions. Their texts lie
//! in a store that is addressed by content. A graph records which page
//! links to, includes or is laid out by which. When a page changes, the
//! pages that depend on it are found in the graph and queued for
//! re-rendering; a worker takes the jobs from the queue.
//!
//! The engine does not render and does not keep time: the renderer's
//! output and the clock's readings are handed in.

pub mod api;
pub mod category;
pub mod content;
pub mod error;
pub mod hash;
pub mod job;
pub mod link;
pub mod locale;
pub mod messages;
pub mod models;
pub mod outdate;
pub mod page_query;
pub mod provided;
pub mod reference;
pub mod render;
pub mod revision;
pub mod user_alias;
pub mod util;
pub mod view;
