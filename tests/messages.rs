use llmapi::anthropic::{
    convert_anthropic_response, convert_message_content_to_anthropic,
    convert_messages_to_anthropic, extract_text_from_message_content, AnthropicContent,
    AnthropicImageSource, AnthropicPart, AnthropicResponse,
};
use llmapi::gemini::{convert_body_parts_gemini, convert_messages_to_gemini_contents, role_to_str};
use llmapi::openai::{
    convert_message, convert_openai_parts, convert_openai_response, extract_data_url_base64,
    ChatChoice, ChatCompletionResponse, ChatContent, ChatContentImageUrl, ChatContentPart,
    ChatMessage,
};
use llmapi::{
    detect_mime_type, encode_byte_to_base64, is_http_url, LLMMessage, LLMMessageType,
    LLMUserType,
};

fn s(x: &str) -> String {
    x.to_string()
}

fn text(x: &str) -> LLMMessageType {
    LLMMessageType::text(s(x))
}

fn msg(role: LLMUserType, content: Vec<LLMMessageType>) -> LLMMessage {
    LLMMessage::from_role(Some(s("m")), role, content)
}

#[test]
fn role_synonyms_are_case_insensitive() {
    assert_eq!(LLMUserType::from_str("user"), Some(LLMUserType::Human));
    assert_eq!(LLMUserType::from_str("  HUMAN "), Some(LLMUserType::Human));
    assert_eq!(LLMUserType::from_str("Model"), Some(LLMUserType::AI));
    assert_eq!(LLMUserType::from_str("ai"), Some(LLMUserType::AI));
    assert_eq!(LLMUserType::from_str("Assistant"), Some(LLMUserType::AI));
    assert_eq!(LLMUserType::from_str("SYSTEM"), Some(LLMUserType::System));
    assert_eq!(LLMUserType::from_str("moderator"), None);
    assert_eq!(LLMUserType::from_str(""), None);
}

#[test]
fn unknown_role_defaults_to_human() {
    let m = LLMMessage::new(None, "moderator", vec![text("x")]);
    assert_eq!(m.role, LLMUserType::Human);
    let m = LLMMessage::new(Some(s("id-1")), "assistant", vec![]);
    assert_eq!(m.role, LLMUserType::AI);
    assert_eq!(m.id, "id-1");
}

#[test]
fn generated_id_is_the_creation_time() {
    let m = LLMMessage::new(None, "user", vec![]);
    assert_eq!(m.id, m.created_at.to_string());
}

#[test]
fn empty_content_is_one_empty_text_everywhere() {
    let m = msg(LLMUserType::Human, vec![]);
    let o = convert_message(&m);
    assert!(matches!(o.content, ChatContent::Text(ref t) if t.is_empty()));
    let a = convert_message_content_to_anthropic(&vec![]);
    assert_eq!(a.len(), 1);
    assert!(matches!(a[0], AnthropicPart::Text { ref text } if text.is_empty()));
    let g = convert_body_parts_gemini(&vec![]);
    assert_eq!(g.len(), 1);
    assert_eq!(g[0].text.as_deref(), Some(""));
    assert!(g[0].inline_data.is_none());
}

#[test]
fn openai_all_text_is_joined() {
    let m = msg(LLMUserType::AI, vec![text("a"), text("b")]);
    let o = convert_message(&m);
    assert_eq!(o.role, "assistant");
    assert!(matches!(o.content, ChatContent::Text(ref t) if t == "a\nb"));
}

#[test]
fn openai_image_gives_part_array_that_reads_back() {
    let content = vec![
        text("look"),
        LLMMessageType::image_b64(s("QUJD")),
        LLMMessageType::IMAGE { data_b64: s("REVG"), file_path: Some(s("pic.gif")) },
    ];
    let m = msg(LLMUserType::Human, content);
    let o = convert_message(&m);
    assert_eq!(o.role, "user");
    let parts = match o.content {
        ChatContent::Parts(p) => p,
        ChatContent::Text(_) => panic!("expected parts"),
    };
    assert_eq!(parts.len(), 3);
    assert_eq!(parts[0].kind, "text");
    assert_eq!(parts[1].kind, "input_image");
    assert_eq!(parts[1].image_url.as_ref().unwrap().url, "data:image/png;base64,QUJD");
    assert_eq!(parts[2].image_url.as_ref().unwrap().url, "data:image/gif;base64,REVG");
    let back = convert_openai_parts(&parts);
    assert_eq!(
        back,
        vec![text("look"), LLMMessageType::image_b64(s("QUJD")), LLMMessageType::image_b64(s("REVG"))]
    );
}

fn part(kind: &str, t: Option<&str>, url: Option<&str>, b64: Option<&str>) -> ChatContentPart {
    ChatContentPart {
        kind: s(kind),
        text: t.map(s),
        image_url: url.map(|u| ChatContentImageUrl { url: s(u) }),
        image_base64: b64.map(s),
    }
}

#[test]
fn openai_answer_parts_by_tag() {
    let parts = vec![
        part("output_text", Some("hello"), None, None),
        part("text", None, None, None),
        part("output_image", None, None, Some("AAA")),
        part("input_image", None, Some("data:image/png;base64,BBB"), None),
        part("input_image", None, Some("https://x/y.png"), None),
        part("audio", None, None, None),
        part("refusal", Some("no"), None, None),
    ];
    let got = convert_openai_parts(&parts);
    assert_eq!(
        got,
        vec![
            text("hello"),
            LLMMessageType::image_b64(s("AAA")),
            LLMMessageType::image_b64(s("BBB")),
            text("https://x/y.png"),
            text("Unsupported OpenAI content type: audio"),
            text("no"),
        ]
    );
}

#[test]
fn openai_response_takes_first_choice() {
    let response = ChatCompletionResponse {
        id: Some(s("resp-1")),
        choices: vec![
            ChatChoice { message: ChatMessage { role: None, content: Some(ChatContent::Text(s("hi"))) } },
            ChatChoice { message: ChatMessage { role: Some(s("user")), content: None } },
        ],
    };
    let m = convert_openai_response(response).unwrap();
    assert_eq!(m.id, "resp-1");
    assert_eq!(m.role, LLMUserType::AI);
    assert_eq!(m.content, vec![text("hi")]);
}

#[test]
fn openai_response_without_content_has_one_empty_text() {
    let response = ChatCompletionResponse {
        id: None,
        choices: vec![ChatChoice { message: ChatMessage { role: Some(s("assistant")), content: None } }],
    };
    let m = convert_openai_response(response).unwrap();
    assert_eq!(m.content, vec![text("")]);
}

#[test]
fn openai_response_without_choices_fails() {
    let response = ChatCompletionResponse { id: None, choices: vec![] };
    let e = convert_openai_response(response).unwrap_err();
    assert_eq!(e.kind, llmapi::ErrorKind::Semantic);
    assert_eq!(e.message, "No choices returned from OpenAI");
}

#[test]
fn data_url_payload_follows_first_comma() {
    assert_eq!(extract_data_url_base64("data:image/png;base64,AB,C"), Some(s("AB,C")));
    assert_eq!(extract_data_url_base64("no comma"), None);
    assert_eq!(extract_data_url_base64(","), Some(s("")));
}

#[test]
fn anthropic_system_goes_to_side_field() {
    let messages = vec![
        msg(LLMUserType::System, vec![text("a")]),
        msg(LLMUserType::System, vec![text("b")]),
        msg(LLMUserType::Human, vec![text("hi")]),
    ];
    let (turns, system) = convert_messages_to_anthropic(&messages);
    assert_eq!(system, Some(s("a\nb")));
    assert_eq!(turns.len(), 1);
    assert_eq!(turns[0].role, "user");
    assert_eq!(turns[0].content.len(), 1);
    assert!(matches!(turns[0].content[0], AnthropicPart::Text { ref text } if text == "hi"));
}

#[test]
fn anthropic_blank_system_messages_are_dropped() {
    let messages = vec![
        msg(LLMUserType::System, vec![LLMMessageType::image_b64(s("X"))]),
        msg(LLMUserType::AI, vec![]),
    ];
    let (turns, system) = convert_messages_to_anthropic(&messages);
    assert_eq!(system, None);
    assert_eq!(turns.len(), 1);
    assert_eq!(turns[0].role, "assistant");
    assert!(matches!(turns[0].content[0], AnthropicPart::Text { ref text } if text.is_empty()));
}

#[test]
fn anthropic_image_blocks_declare_mime() {
    let parts = convert_message_content_to_anthropic(&vec![
        LLMMessageType::image_b64(s("AAA")),
        LLMMessageType::IMAGE { data_b64: s("BBB"), file_path: Some(s("x.jpg")) },
    ]);
    assert!(matches!(parts[0], AnthropicPart::Image { ref media_type, ref data } if media_type == "image/png" && data == "AAA"));
    assert!(matches!(parts[1], AnthropicPart::Image { ref media_type, ref data } if media_type == "image/jpeg" && data == "BBB"));
}

#[test]
fn extract_text_skips_images() {
    let t = extract_text_from_message_content(&vec![text("x"), LLMMessageType::image_b64(s("I")), text("y")]);
    assert_eq!(t, "x\ny");
}

#[test]
fn anthropic_answer_blocks() {
    let response = AnthropicResponse {
        id: Some(s("msg_1")),
        role: None,
        content: vec![
            AnthropicContent { kind: s("text"), text: Some(s("hi")), source: None, extra: None },
            AnthropicContent {
                kind: s("image"),
                text: None,
                source: Some(AnthropicImageSource { data: Some(s("IMG")) }),
                extra: None,
            },
            AnthropicContent { kind: s("tool_use"), text: None, source: None, extra: Some(s("{\"a\":1}")) },
            AnthropicContent { kind: s("thinking"), text: None, source: None, extra: None },
        ],
    };
    let m = convert_anthropic_response(response);
    assert_eq!(m.id, "msg_1");
    assert_eq!(m.role, LLMUserType::AI);
    assert_eq!(
        m.content,
        vec![
            text("hi"),
            LLMMessageType::image_b64(s("IMG")),
            text("{\"a\":1}"),
            text("Unsupported Anthropic content type: thinking"),
        ]
    );
}

#[test]
fn anthropic_empty_answer_has_one_empty_text() {
    let response = AnthropicResponse { id: None, role: Some(s("assistant")), content: vec![] };
    assert_eq!(convert_anthropic_response(response).content, vec![text("")]);
}

#[test]
fn gemini_keeps_system_inline() {
    let messages = vec![
        msg(LLMUserType::System, vec![text("rules")]),
        msg(LLMUserType::AI, vec![LLMMessageType::image_b64(s("AAA"))]),
        msg(LLMUserType::Human, vec![LLMMessageType::IMAGE { data_b64: s("B"), file_path: Some(s("a.png")) }]),
    ];
    let contents = convert_messages_to_gemini_contents(&messages);
    assert_eq!(contents.len(), 3);
    assert_eq!(contents[0].role.as_deref(), Some("system"));
    assert_eq!(contents[1].role.as_deref(), Some("model"));
    assert_eq!(contents[2].role.as_deref(), Some("user"));
    assert_eq!(contents[0].parts[0].text.as_deref(), Some("rules"));
    let inline = contents[1].parts[0].inline_data.as_ref().unwrap();
    assert_eq!(inline.mime_type, "image/jpeg");
    assert_eq!(inline.data, "AAA");
    assert_eq!(contents[2].parts[0].inline_data.as_ref().unwrap().mime_type, "image/png");
    assert_eq!(role_to_str(LLMUserType::AI), "model");
}

#[test]
fn mime_detection_defaults_to_jpeg() {
    assert_eq!(detect_mime_type("photo.png"), "image/png");
    assert_eq!(detect_mime_type("dir/photo.webp"), "image/webp");
    assert_eq!(detect_mime_type("no_extension"), "image/jpeg");
}

#[test]
fn base64_encoding() {
    assert_eq!(encode_byte_to_base64(b"hi".to_vec()), "aGk=");
    assert_eq!(encode_byte_to_base64(vec![]), "");
}

#[test]
fn image_part_from_loaded_bytes() {
    let p = LLMMessageType::image(s("pic.png"), Some(b"abc".to_vec()));
    assert_eq!(p, LLMMessageType::IMAGE { data_b64: s("YWJj"), file_path: Some(s("pic.png")) });
    let q = LLMMessageType::image(s("missing.png"), None);
    assert_eq!(q, LLMMessageType::IMAGE { data_b64: s(""), file_path: Some(s("missing.png")) });
}

#[test]
fn http_urls() {
    assert!(is_http_url("http://a"));
    assert!(is_http_url("https://a"));
    assert!(!is_http_url("ftp://a"));
    assert!(!is_http_url("/tmp/https://"));
}
