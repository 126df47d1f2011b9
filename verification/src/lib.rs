//! A small access-abstraction layer: handles that let callers treat four ways
//! of holding a value — owning it, borrowing it immutably, borrowing it
//! mutably, or holding it behind a lock — through one uniform read/write
//! interface.
//!
//! Every storage cell lives in a [`Store`]; a handle ([`Pass`] for read-only
//! access, [`PassMut`] for read-write access) is a pointer to one cell of that
//! store. Cloning a handle shares its cell; relocating a handle allocates a
//! fresh cell and repoints only that handle, so prior clones keep observing
//! the old cell.

pub mod handle;
pub mod laws;
pub mod storage;

pub use handle::Pass;
pub use handle::PassMut;
pub use handle::Relocate;
pub use storage::Locator;
pub use storage::Store;
