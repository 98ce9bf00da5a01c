//! Verified core of a small desktop CRM: retry and logging policies,
//! the database worker's request handling, the backup worker's decisions
//! and the in-memory company list.
pub mod backend;
pub mod clock;
pub mod foreign;
pub mod policies;
pub mod tasks;
pub mod text;
pub mod ui;
