//! The entry points' own work, one file each: the accounts an entry point
//! is handed, the conditions on them, and what it does once they hold.
pub mod decrease_allocation;
pub mod exercise_allocation;
pub mod increase_allocation;
pub mod initialize_allocation;
pub mod initialize_fee;
pub mod reconcile;
pub mod withdraw_fee;
