//! Interactive console: model, commands, completion, and views.

pub mod model;
pub mod files;
pub mod commands;
pub mod completion;
pub mod update;
pub mod console;
