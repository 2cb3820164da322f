//! A keyed store whose entries carry an expiry time.
//!
//! Entries are inserted with a time-to-live, read by key, and swept out by an
//! explicit call once their expiry has passed. Nothing runs in the background:
//! the owner decides when to sweep, and a read between two sweeps may return an
//! entry whose time is already up.

pub mod clock;
pub mod dict;
pub mod laws;

pub use clock::TimeNow;
pub use dict::{Expiry, ExpiringDict};
