//! Multi-provider chat and embedding message normalisation.
//!
//! One conversational message model is rendered into the wire shapes of
//! three providers (OpenAI-style, Anthropic-style, Gemini-style), and each
//! provider's response is normalised back into that model.  The network
//! exchange itself is left to the caller: this crate builds the requests,
//! interprets the decoded responses and applies the failure policy (a chat
//! always resolves to a message, an embedding always to a list).

mod support;
mod text;
pub mod types;
pub mod openai;
pub mod anthropic;
pub mod gemini;
pub mod dispatch;
pub mod laws;
pub mod studio;

pub use dispatch::{
    chat_request, embedding_plan, embeddings_or_empty, failure_message, finish_chat, ChatAnswer,
    ChatRequest, EmbeddingPlan,
};
pub use support::{current_timestamp_millis, detect_mime_type, encode_byte_to_base64, is_http_url};
pub use text::{decimal_text, join_lines_exec, str_equals};
pub use types::{
    ErrorKind, LLMClient, LLMMessage, LLMMessageType, LLMProvider, LLMType, LLMUserType,
    ProviderError,
};
