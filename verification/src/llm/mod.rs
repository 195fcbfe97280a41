pub mod openai;
pub mod provider;
