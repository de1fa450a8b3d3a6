use llmapi::dispatch::{chat_request, embedding_plan, embeddings_or_empty, failure_message, finish_chat};
use llmapi::dispatch::{ChatAnswer, ChatRequest, EmbeddingPlan};
use llmapi::gemini::{
    batch_embeddings, build_batch_embed_contents, build_embed_content, build_embedding_request,
    build_generate_request, convert_gemini_response, response_to_base64_images,
    response_to_image_data, response_to_text_data, single_embedding, Candidate, Content,
    EmbedMethod, GeminiBatchEmbedResponse, GeminiEmbedResponse, GeminiResponse, InlineData, Part,
    UsageMetadata,
};
use llmapi::openai::{ChatCompletionResponse, OPENAI_MAX_TOKENS};
use llmapi::{
    ErrorKind, LLMClient, LLMMessage, LLMMessageType, LLMProvider, LLMType, LLMUserType,
    ProviderError,
};

fn s(x: &str) -> String {
    x.to_string()
}

fn client(p: LLMProvider, endpoint: &str, model: &str) -> LLMClient {
    LLMClient::new(p, s("key"), s(endpoint), s(model), LLMType::Chat)
}

fn txt(t: &str) -> Part {
    Part { text: Some(s(t)), inline_data: None }
}

fn img(mime: &str, data: &str) -> Part {
    Part { text: None, inline_data: Some(InlineData { mime_type: s(mime), data: s(data) }) }
}

fn candidate(parts: Vec<Part>) -> Candidate {
    Candidate { content: Content { parts, role: Some(s("model")) }, finish_reason: None, index: None }
}

fn response(candidates: Vec<Candidate>) -> GeminiResponse {
    GeminiResponse { candidates, usage_metadata: None, model_version: None, response_id: Some(s("r-1")) }
}

fn usage() -> UsageMetadata {
    UsageMetadata {
        prompt_token_count: Some(3),
        candidates_token_count: None,
        total_token_count: Some(3),
        prompt_tokens_details: None,
        candidates_tokens_details: None,
    }
}

#[test]
fn client_getters() {
    let c = LLMClient::new(LLMProvider::Anthropic, s("k"), s("e"), s("m"), LLMType::Embedding);
    assert_eq!(c.provider(), LLMProvider::Anthropic);
    assert_eq!(c.api_key(), "k");
    assert_eq!(c.endpoint(), "e");
    assert_eq!(c.default_model(), "m");
    assert_eq!(c.llm_type(), LLMType::Embedding);
}

#[test]
fn chat_request_follows_provider() {
    let msgs = vec![LLMMessage::new(None, "user", vec![LLMMessageType::text(s("hi"))])];
    match chat_request(&client(LLMProvider::OpenAI, "https://api.x/v1//", "gpt"), &msgs) {
        ChatRequest::OpenAI(q) => {
            assert_eq!(q.url, "https://api.x/v1/chat/completions");
            assert_eq!(q.model, "gpt");
            assert_eq!(q.api_key, "key");
            assert_eq!(q.max_tokens, OPENAI_MAX_TOKENS);
            assert_eq!(q.messages.len(), 1);
        }
        _ => panic!("wrong request variant"),
    }
    match chat_request(&client(LLMProvider::Anthropic, "https://a/v1/", "chat-model"), &msgs) {
        ChatRequest::Anthropic(q) => {
            assert_eq!(q.url, "https://a/v1/messages");
            assert_eq!(q.version, "2023-06-01");
            assert_eq!(q.max_tokens, 1024);
            assert_eq!(q.system, None);
        }
        _ => panic!("wrong request variant"),
    }
    match chat_request(&client(LLMProvider::Gemini, "https://g/models/", "gem"), &msgs) {
        ChatRequest::Gemini(q) => {
            assert_eq!(q.url, "https://g/models/gem:generateContent");
            assert_eq!(q.contents.len(), 1);
        }
        _ => panic!("wrong request variant"),
    }
    let g = build_generate_request(&client(LLMProvider::Gemini, "e", "m"), &vec![]);
    assert_eq!(g.url, "e/m:generateContent");
}

#[test]
fn embedding_plan_per_provider() {
    let texts = vec![s("a"), s("b")];
    assert!(matches!(embedding_plan(&client(LLMProvider::Anthropic, "e", "m"), &texts), EmbeddingPlan::Skip));
    assert!(matches!(embedding_plan(&client(LLMProvider::OpenAI, "e", "m"), &vec![]), EmbeddingPlan::Skip));
    match embedding_plan(&client(LLMProvider::OpenAI, "https://o/v1/", "emb"), &texts) {
        EmbeddingPlan::OpenAI(q) => {
            assert_eq!(q.url, "https://o/v1/embeddings");
            assert_eq!(q.input, texts);
            assert_eq!(q.model, "emb");
        }
        _ => panic!("wrong plan variant"),
    }
    assert!(matches!(
        embedding_plan(&client(LLMProvider::Gemini, "e", "m"), &texts),
        EmbeddingPlan::Gemini(_)
    ));
}

#[test]
fn gemini_single_text_uses_embed_content() {
    let q = build_embedding_request(&client(LLMProvider::Gemini, "https://g/v1beta/", "text-embedding-004"), &vec![s("one")]);
    assert_eq!(q.method, EmbedMethod::Single);
    assert_eq!(q.url, "https://g/v1beta/text-embedding-004:embedContent");
    assert_eq!(q.requests.len(), 1);
    assert_eq!(q.requests[0].model, "models/text-embedding-004");
    assert_eq!(q.requests[0].content.parts[0].text.as_deref(), Some("one"));
}

#[test]
fn gemini_many_texts_use_batch() {
    let q = build_embedding_request(&client(LLMProvider::Gemini, "https://g", "models/models/e1"), &vec![s("a"), s("b")]);
    assert_eq!(q.method, EmbedMethod::Batch);
    assert_eq!(q.url, "https://g/e1:batchEmbedContents");
    assert_eq!(q.requests.len(), 2);
    assert_eq!(q.requests[0].model, "models/models/e1");
    assert_eq!(q.requests[1].content.parts[0].text.as_deref(), Some("b"));
    let none = build_embedding_request(&client(LLMProvider::Gemini, "g", "e"), &vec![]);
    assert_eq!(none.method, EmbedMethod::Batch);
}

#[test]
fn embed_bodies() {
    let one = build_embed_content("t", "models/m");
    assert_eq!(one.model, "models/m");
    assert!(one.content.role.is_none());
    let many = build_batch_embed_contents(&vec![s("x"), s("y")], "models/m");
    assert_eq!(many.len(), 2);
    assert_eq!(many[1].content.parts[0].text.as_deref(), Some("y"));
}

#[test]
fn usage_only_embedding_is_a_failure() {
    let single: GeminiEmbedResponse<Vec<f32>> =
        GeminiEmbedResponse { embedding: None, usage_metadata: Some(usage()), model_version: None, response_id: None };
    let e = single_embedding(single).unwrap_err();
    assert_eq!(e.kind, ErrorKind::Semantic);
    let batch: GeminiBatchEmbedResponse<Vec<f32>> =
        GeminiBatchEmbedResponse { embeddings: None, usage_metadata: Some(usage()), model_version: None, response_id: None };
    assert!(batch_embeddings(batch).is_err());
    let ok = GeminiEmbedResponse { embedding: Some(vec![0.5f32]), usage_metadata: None, model_version: None, response_id: None };
    assert_eq!(single_embedding(ok).unwrap(), vec![vec![0.5f32]]);
    let ok = GeminiBatchEmbedResponse { embeddings: Some(vec![vec![1.0f32], vec![2.0f32]]), usage_metadata: None, model_version: None, response_id: None };
    assert_eq!(batch_embeddings(ok).unwrap().len(), 2);
}

#[test]
fn chat_failure_is_a_system_message() {
    for p in [LLMProvider::OpenAI, LLMProvider::Anthropic, LLMProvider::Gemini] {
        let err = ProviderError::new(ErrorKind::Transport, s("connection refused"));
        let m = finish_chat(p, Err(err));
        assert_eq!(m.role, LLMUserType::System);
        assert_eq!(m.content.len(), 1);
        match &m.content[0] {
            LLMMessageType::TEXT(t) => {
                assert!(!t.is_empty());
                assert!(t.contains("connection refused"));
            }
            _ => panic!("expected text"),
        }
    }
    let m = failure_message(LLMProvider::Gemini, &ProviderError::new(ErrorKind::Protocol, s("500")));
    assert_eq!(m.content, vec![LLMMessageType::text(s("Gemini error: protocol error: 500"))]);
}

#[test]
fn chat_without_choices_or_candidates_is_a_system_message() {
    let m = finish_chat(LLMProvider::OpenAI, Ok(ChatAnswer::OpenAI(ChatCompletionResponse { id: None, choices: vec![] })));
    assert_eq!(m.role, LLMUserType::System);
    assert_eq!(m.content, vec![LLMMessageType::text(s("OpenAI error: semantic error: No choices returned from OpenAI"))]);
    let m = finish_chat(LLMProvider::Gemini, Ok(ChatAnswer::Gemini(response(vec![]))));
    assert_eq!(m.role, LLMUserType::System);
    assert_eq!(m.content, vec![LLMMessageType::text(s("Gemini error: semantic error: No candidates found"))]);
}

#[test]
fn embedding_failure_is_empty() {
    let r: Vec<Vec<f32>> = embeddings_or_empty(Err(ProviderError::new(ErrorKind::Decode, s("bad json"))));
    assert_eq!(r.len(), 0);
    let r = embeddings_or_empty(Ok(vec![vec![1.0f32]]));
    assert_eq!(r, vec![vec![1.0f32]]);
}

#[test]
fn gemini_answer_images_then_text() {
    let r = response(vec![
        candidate(vec![txt("a"), img("image/png", "IMG1"), txt("b"), img("image/png", "")]),
        candidate(vec![img("image/png", "IMG2"), txt("c")]),
    ]);
    assert_eq!(response_to_base64_images(&r), vec![s("IMG1"), s("IMG2")]);
    assert_eq!(response_to_text_data(&r).unwrap(), "ab");
    let m = finish_chat(LLMProvider::Gemini, Ok(ChatAnswer::Gemini(r)));
    assert_eq!(m.role, LLMUserType::AI);
    assert_eq!(m.id, "r-1");
    assert_eq!(m.content, vec![LLMMessageType::image_b64(s("IMG1")), LLMMessageType::text(s("ab"))]);
}

#[test]
fn gemini_text_only_answer() {
    let m = convert_gemini_response(response(vec![candidate(vec![txt("x"), txt("y")])])).unwrap();
    assert_eq!(m.content, vec![LLMMessageType::text(s("xy"))]);
    assert!(response_to_text_data(&response(vec![])).is_err());
}

#[test]
fn gemini_image_bytes_are_decoded() {
    let r = response(vec![candidate(vec![img("image/png", "aGk="), img("image/png", "!!!"), img("image/png", "")])]);
    assert_eq!(response_to_image_data(&r), vec![b"hi".to_vec()]);
}
