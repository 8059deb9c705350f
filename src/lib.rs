//! Sorts files dropped into a watched folder into categorised destination
//! folders, after a grace period, keeping a bounded and undoable history.
pub mod editing;
pub mod history;
pub mod mover;
pub mod pending;
pub mod rules;
pub mod schema;
pub mod text;
pub mod watcher;
