//! Configuration model, validation, theming and decision logic of a
//! terminal greeter for greetd.
pub mod config;
pub mod error;
pub mod loader;
pub mod masked;
pub mod menu;
pub mod parser;
pub mod power;
pub mod processing;
pub mod schema;
pub mod text;
pub mod theme;
pub mod validation;
pub mod watcher;
