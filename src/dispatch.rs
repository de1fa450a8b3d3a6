//! Selection of the adapter for a client, and the uniform failure policy:
//! a chat always yields a message, an embedding always yields a list.
use vstd::prelude::*;
use crate::anthropic::{self, AnthropicChatRequest, AnthropicResponse};
use crate::gemini::{self, GeminiChatRequest, GeminiEmbedRequest, GeminiResponse};
use crate::openai::{self, ChatCompletionResponse, OpenAiChatRequest, OpenAiEmbeddingRequest};
use crate::types::{
    kind_label, parts_view, ErrorKind, LLMClient, LLMMessage, LLMMessageType, LLMProvider,
    LLMUserType, PartView, ProviderError,
};

verus! {

/// A chat request in the protocol of the client's provider.
pub enum ChatRequest {
    OpenAI(OpenAiChatRequest),
    Anthropic(AnthropicChatRequest),
    Gemini(GeminiChatRequest),
}

/// A decoded chat answer in the protocol it came in.
pub enum ChatAnswer {
    OpenAI(ChatCompletionResponse),
    Anthropic(AnthropicResponse),
    Gemini(GeminiResponse),
}

/// What to do for an embedding call.
pub enum EmbeddingPlan {
    /// Nothing to send: the result is the empty list.
    Skip,
    OpenAI(OpenAiEmbeddingRequest),
    Gemini(GeminiEmbedRequest),
}

/// The chat request for `messages` in the protocol of the client's provider.
pub fn chat_request(client: &LLMClient, messages: &Vec<LLMMessage>) -> (r: ChatRequest)
    ensures
        match client.spec_provider() {
            LLMProvider::OpenAI => r matches ChatRequest::OpenAI(q) && openai::is_chat_request(
                q,
                *client,
                messages@,
            ),
            LLMProvider::Anthropic => r matches ChatRequest::Anthropic(q)
                && anthropic::is_chat_request(q, *client, messages@),
            LLMProvider::Gemini => r matches ChatRequest::Gemini(q) && gemini::is_chat_request(
                q,
                *client,
                messages@,
            ),
        },
{
    match client.provider() {
        LLMProvider::OpenAI => ChatRequest::OpenAI(openai::build_chat_request(client, messages)),
        LLMProvider::Anthropic => ChatRequest::Anthropic(
            anthropic::build_chat_request(client, messages),
        ),
        LLMProvider::Gemini => ChatRequest::Gemini(gemini::build_generate_request(client, messages)),
    }
}

/// The embedding call for `texts`: none for Anthropic, which offers no
/// embeddings, nor for OpenAI with no texts.
pub fn embedding_plan(client: &LLMClient, texts: &Vec<String>) -> (r: EmbeddingPlan)
    ensures
        match client.spec_provider() {
            LLMProvider::Anthropic => r is Skip,
            LLMProvider::OpenAI => if texts@.len() == 0 {
                r is Skip
            } else {
                r matches EmbeddingPlan::OpenAI(q) && openai::is_embedding_request(
                    q,
                    *client,
                    texts@,
                )
            },
            LLMProvider::Gemini => r matches EmbeddingPlan::Gemini(q)
                && gemini::is_embedding_request(q, *client, texts@),
        },
{
    match client.provider() {
        LLMProvider::Anthropic => EmbeddingPlan::Skip,
        LLMProvider::OpenAI => match openai::build_embedding_request(client, texts) {
            Some(q) => EmbeddingPlan::OpenAI(q),
            None => EmbeddingPlan::Skip,
        },
        LLMProvider::Gemini => EmbeddingPlan::Gemini(gemini::build_embedding_request(client, texts)),
    }
}

/// The words that open a diagnostic message from `p`.
pub open spec fn provider_label(p: LLMProvider) -> Seq<char> {
    match p {
        LLMProvider::OpenAI => "OpenAI error: "@,
        LLMProvider::Anthropic => "Anthropic error: "@,
        LLMProvider::Gemini => "Gemini error: "@,
    }
}

/// The text of the diagnostic message for `e` from `p`.
pub open spec fn diagnostic_text(p: LLMProvider, e: ProviderError) -> Seq<char> {
    provider_label(p) + kind_label(e.kind) + e.message@
}

/// `m` is the diagnostic message for `e` from `p`: a system message with one
/// text part that describes the error.
pub open spec fn is_diagnostic(m: LLMMessage, p: LLMProvider, e: ProviderError) -> bool {
    &&& m.role == LLMUserType::System
    &&& parts_view(m.content@) == seq![PartView::Text(diagnostic_text(p, e))]
}

/// The system message that stands for a failed chat call.
pub fn failure_message(provider: LLMProvider, err: &ProviderError) -> (r: LLMMessage)
    ensures
        is_diagnostic(r, provider, *err),
        r.content@[0]@ matches PartView::Text(t) && t.len() > 0,
{
    let mut text = match provider {
        LLMProvider::OpenAI => String::from_str("OpenAI error: "),
        LLMProvider::Anthropic => String::from_str("Anthropic error: "),
        LLMProvider::Gemini => String::from_str("Gemini error: "),
    };
    let d = err.describe();
    text.append(d.as_str());
    proof {
        reveal_strlit("OpenAI error: ");
        reveal_strlit("Anthropic error: ");
        reveal_strlit("Gemini error: ");
        assert(text@ =~= diagnostic_text(provider, *err));
    }
    let mut content: Vec<LLMMessageType> = Vec::new();
    content.push(LLMMessageType::text(text));
    assert(parts_view(content@) =~= seq![PartView::Text(diagnostic_text(provider, *err))]);
    LLMMessage::from_role(None, LLMUserType::System, content)
}

/// The message a chat call resolves to, whatever happened: the answer's
/// message when there is one, else a diagnostic system message.  An answer
/// with no choice (OpenAI) or no candidate (Gemini) counts as a failure.
pub fn finish_chat(provider: LLMProvider, outcome: Result<ChatAnswer, ProviderError>) -> (r: LLMMessage)
    ensures
        outcome matches Err(e) ==> is_diagnostic(r, provider, e),
        outcome matches Ok(ChatAnswer::OpenAI(a)) ==> if a.choices@.len() == 0 {
            exists|e: ProviderError| e.kind == ErrorKind::Semantic && is_diagnostic(r, provider, e)
        } else {
            openai::answer_message(a, r)
        },
        outcome matches Ok(ChatAnswer::Anthropic(a)) ==> anthropic::answer_message(a, r),
        outcome matches Ok(ChatAnswer::Gemini(a)) ==> if a.candidates@.len() == 0 {
            exists|e: ProviderError| e.kind == ErrorKind::Semantic && is_diagnostic(r, provider, e)
        } else {
            gemini::gemini_answer_message(a, r)
        },
{
    match outcome {
        Err(e) => failure_message(provider, &e),
        Ok(ChatAnswer::OpenAI(a)) => match openai::convert_openai_response(a) {
            Ok(m) => m,
            Err(e) => failure_message(provider, &e),
        },
        Ok(ChatAnswer::Anthropic(a)) => anthropic::convert_anthropic_response(a),
        Ok(ChatAnswer::Gemini(a)) => match gemini::convert_gemini_response(a) {
            Ok(m) => m,
            Err(e) => failure_message(provider, &e),
        },
    }
}

/// The vectors of an embedding call, or the empty list when it failed.
pub fn embeddings_or_empty<V>(outcome: Result<Vec<V>, ProviderError>) -> (r: Vec<V>)
    ensures
        outcome matches Err(_) ==> r@.len() == 0,
        outcome matches Ok(v) ==> r == v,
{
    match outcome {
        Ok(v) => v,
        Err(_) => Vec::new(),
    }
}

} // verus!
