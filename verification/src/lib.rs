pub mod asr;
pub mod audio;
pub mod config;
pub mod correction;
pub mod input;
pub mod json;
pub mod llm;
pub mod network;
pub mod pipeline;
pub mod platform;
pub mod protocol;
pub mod text;
