//! Decision logic of the OpenRouter speech-to-text client and the model
//! commands, with the recording encoder they share.

pub mod text;
pub mod json;
pub mod catalog;
pub mod settings;
pub mod upload;
pub mod retry;
pub mod wav;
pub mod payload;
pub mod commands;
