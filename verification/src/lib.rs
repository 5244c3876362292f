//! Declarative project scaffolding: a declaration file is read as an ordered
//! list of filesystem operations, every placeholder is resolved through three
//! tiers of context, and the operations are carried out one after another.

pub mod command;
pub mod config;
pub mod context;
pub mod declaration;
pub mod dispatch;
pub mod errors;
pub mod executor;
pub mod helpers;
pub mod loader;
pub mod locator;
pub mod parsers;
pub mod paths;
pub mod processor;
pub mod resolver;
pub mod text;
