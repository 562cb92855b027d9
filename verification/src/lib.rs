//! Stream-event decoding and request-planning logic of the Grengin API,
//! with contracts checked by Verus.

pub mod json;
pub mod ids;
pub mod files;
pub mod mcp_access;
pub mod reconfigure;
pub mod sso;
pub mod users;
pub mod text;
pub mod table;
pub mod llm;
pub mod departments;
pub mod department_tree;
pub mod department_list;
pub mod listing;
pub mod tool_sync;
pub mod roles;
pub mod ai_engines;
pub mod prompt_context;
pub mod stream_envelope;
pub mod chat_stream;
pub mod chat_stream_laws;
pub mod chats;
pub mod discovery;
