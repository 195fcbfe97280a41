pub mod builtins;
pub mod executor;
pub mod registry;
