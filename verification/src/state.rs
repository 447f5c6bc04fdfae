//! The two records this program keeps.
pub mod allocation;
pub mod fee;
