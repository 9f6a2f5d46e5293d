//! The verified core of PatentMate: disclosure-document checks, the demo
//! session state machine, model-provider configuration rules and the text
//! handling behind the live analysis path.
pub mod text;
pub mod models;
pub mod validation;
pub mod mock_session;
pub mod model_config;
pub mod session_service;
pub mod ai_payload;
pub mod qwen_session;
