pub mod case;
pub mod chars;
pub mod commands;
pub mod config;
pub mod error;
pub mod pipeline;
pub mod registry;
pub mod scaffold;
pub mod text;
