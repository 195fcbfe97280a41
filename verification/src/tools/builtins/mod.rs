pub mod file;
pub mod shell;
pub mod web;
