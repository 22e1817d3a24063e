//! Core of a terminal process monitor: the record list, its sort order, the
//! row selection, input routing and the refresh schedule.

pub mod app;
pub mod input;
pub mod monitor;
pub mod order;
pub mod record;
pub mod scheduler;
pub mod selection;
pub mod sort;
pub mod sort_key;
pub mod state;
pub mod text;
