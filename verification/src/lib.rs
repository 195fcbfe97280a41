//! Pangu: a tool-using agent with layered memory and an evolution engine.

pub mod agent;
pub mod evolution;
pub mod gateway;
pub mod llm;
pub mod memory;
pub mod outside;
pub mod text;
pub mod tools;
pub mod tui;
pub mod types;
