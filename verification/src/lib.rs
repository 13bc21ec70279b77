//! A per-account todo ledger with a deposit escrow.
//!
//! Creating a todo locks a deposit of at least [`MINIMUM_DEPOSIT`]; the
//! deposit is handed back to its owner only once the todo is completed, and
//! only once.

pub mod amount;
pub mod escrow;
pub mod laws;
pub mod owner;
pub mod store;
pub mod todo;

pub use amount::Amount;
pub use amount::MINIMUM_DEPOSIT;
pub use escrow::TodoApp;
pub use owner::Owner;
pub use store::RecordStore;
pub use todo::Error;
pub use todo::Todo;
