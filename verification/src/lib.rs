//! A shared, observable state cell.
//!
//! Many independent consumers hold cheap handles to one logical value kept
//! behind a verified reader/writer lock. A mutating write bumps a generation
//! counter and reports every registered subscriber so the host runtime can
//! schedule their recomputation; silent writes touch neither. Handle equality
//! is generation-based, so the host can use `==` as a cheap change proxy.

pub mod cell;
pub mod local;
pub mod shared;
pub mod subscribers;

pub use cell::CellState;
pub use cell::LockPoisoned;
pub use local::LocalState;
pub use local::UpdateSignal;
pub use local::UseLock;
pub use local::ValueReadGuard;
pub use local::ValueWriteGuard;
pub use shared::NotifyAny;
pub use shared::SharedCell;
pub use shared::SharedLockReadGuard;
pub use shared::SharedLockWriteGuard;
pub use shared::UseSharedLock;
pub use shared::attach_consumer;
pub use subscribers::SubscriberSet;
