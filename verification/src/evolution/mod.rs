pub mod error_collector;
pub mod self_corrector;
pub mod skill_generator;
