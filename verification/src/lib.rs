//! A concurrent, transactional in-memory map. Readers see a consistent
//! snapshot of every value they touch, writers work on a private copy, and
//! all the mutations of a transaction are published together when it closes.

pub mod arccell;
pub mod clock;
pub mod counter;
pub mod handle;
pub mod lock;
pub mod map;
pub mod state;
pub mod storage;
mod sync;

pub use lock::Lock;
pub use handle::{Guard, LocalSet, MapRef, MutGuard};
pub use map::TxMap;
pub use state::ThreadState;
pub use storage::{Allocable, Insertable, Storage, ThreadLocal};
