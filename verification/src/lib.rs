//! Verified core of a small blog made of event-driven services: a posts
//! service, a comments service, an event bus and a query service that builds
//! a read model of posts with their comments from the events the others emit.

pub mod bus;
pub mod comments;
pub mod events;
pub mod ids;
pub mod posts;
pub mod producer;
pub mod query;
pub mod reply;
