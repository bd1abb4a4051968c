//! An account allow-list and the admission check that consults it.
//!
//! - `store`: the set of allowed accounts.
//! - `pallet`: the management operations, guarded by an origin check, that add
//!   and remove accounts and deposit a notification for each change, and the
//!   genesis list that seeds the store.
//! - `admission`: the check made on every incoming transaction, which admits
//!   exactly the transactions signed by an allowed account.
//! - `laws`: how the operations relate to one another.

pub mod store;
pub mod pallet;
pub mod admission;
pub mod laws;
