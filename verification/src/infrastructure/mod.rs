//! Adapters that need no I/O: the in-memory event publisher.

pub mod event_publisher;

pub use event_publisher::InMemoryEventPublisher;
