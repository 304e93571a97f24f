//! A small task tracker: an ordered store of tasks, the operations that change
//! it, and the command language of its two front ends.

pub mod command;
pub mod laws;
pub mod store;
pub mod task;
pub mod text;
