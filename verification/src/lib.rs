//! An in-memory list of todo records with stable, never-reused ids.

pub mod history;
pub mod laws;
pub mod model;
pub mod snapshot;
pub mod store;
pub mod table;
pub mod text;
pub mod timestamp;
pub mod todo;

pub use snapshot::{Snapshot, SnapshotError};
pub use store::TodoList;
pub use table::{row, Row};
pub use text::{can_be_truncated, truncate};
pub use timestamp::Timestamp;
pub use todo::Todo;
