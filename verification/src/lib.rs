//! Adapter from the Fiber network's transaction and block feeds to a uniform
//! stream of collector events.
//!
//! The library holds the decisions: which endpoint and credential a session is
//! opened with, what becomes of the collector when the attempt succeeds or
//! fails, which feed is subscribed to, and how each delivered item maps to an
//! [`Event`]. Opening sessions and awaiting deliveries is left to the caller,
//! who hands the outcomes in.

pub mod collector;
pub mod event;
pub mod stream;
pub mod vendor;

pub use collector::{ConnectError, ConnectRequest, FiberCollector, Subscription, FIBER_DEFAULT_URL};
pub use event::{Event, StreamType};
pub use stream::EventStream;
pub use vendor::VendorItem;
