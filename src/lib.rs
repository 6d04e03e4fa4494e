//! Terminal output decoding for a dashboard terminal view, and the plain
//! data model of the dashboard's chat, speech and agent tooling.

pub mod text;
pub mod ids;
pub mod style;
pub mod performer;
pub mod decoder;
pub mod pump;
pub mod session;
pub mod chat_types;
pub mod messages;
pub mod sources_manager;
pub mod filter_parser;
pub mod chat_config;
pub mod formatters;
pub mod commands;
pub mod mcp;
pub mod tts;
pub mod synthesis;
pub mod tts_queue;
pub mod tts_service;
pub mod agent;
pub mod plan;
pub mod toolcall;
pub mod dashboard;
pub mod sources;
