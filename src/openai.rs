//! The OpenAI-style protocol: chat completions and embeddings.
use vstd::prelude::*;
use crate::text::{join_lines, join_lines_exec, str_equals, trim_end_slashes, trimmed_end};
use crate::types::{
    all_text, canonical_role, collect_texts, image_mime, image_mime_for, is_all_text,
    nonempty_parts, opt_view, parts_view, text_segments, ErrorKind, LLMClient, LLMMessage,
    LLMMessageType, LLMUserType, PartView, ProviderError,
};

verus! {

/// The `max_tokens` ceiling sent with every chat request.
pub const OPENAI_MAX_TOKENS: u32 = 1024;

/// A decoded chat completion answer.
pub struct ChatCompletionResponse {
    pub id: Option<String>,
    pub choices: Vec<ChatChoice>,
}

pub struct ChatChoice {
    pub message: ChatMessage,
}

pub struct ChatMessage {
    pub role: Option<String>,
    pub content: Option<ChatContent>,
}

/// Message content: a bare string, or an array of typed parts.
pub enum ChatContent {
    Text(String),
    Parts(Vec<ChatContentPart>),
}

/// One typed content part, as sent and as received.
pub struct ChatContentPart {
    pub kind: String,
    pub text: Option<String>,
    pub image_url: Option<ChatContentImageUrl>,
    pub image_base64: Option<String>,
}

pub struct ChatContentImageUrl {
    pub url: String,
}

/// The mathematical value of a typed content part.
pub struct ContentPartView {
    pub kind: Seq<char>,
    pub text: Option<Seq<char>>,
    pub image_url: Option<Seq<char>>,
    pub image_base64: Option<Seq<char>>,
}

impl View for ChatContentPart {
    type V = ContentPartView;

    open spec fn view(&self) -> ContentPartView {
        ContentPartView {
            kind: self.kind@,
            text: opt_view(self.text),
            image_url: match self.image_url {
                Some(u) => Some(u.url@),
                None => None,
            },
            image_base64: opt_view(self.image_base64),
        }
    }
}

/// The views of a sequence of typed parts.
pub open spec fn content_parts_view(parts: Seq<ChatContentPart>) -> Seq<ContentPartView> {
    parts.map_values(|p: ChatContentPart| p@)
}

/// The mathematical value of message content.
pub enum ChatContentView {
    Text(Seq<char>),
    Parts(Seq<ContentPartView>),
}

impl View for ChatContent {
    type V = ChatContentView;

    open spec fn view(&self) -> ChatContentView {
        match self {
            ChatContent::Text(t) => ChatContentView::Text(t@),
            ChatContent::Parts(ps) => ChatContentView::Parts(content_parts_view(ps@)),
        }
    }
}

/// One message of a chat request.
pub struct OpenAiMessage {
    pub role: String,
    pub content: ChatContent,
}

/// A chat completion request: where it goes, its bearer token and its body.
pub struct OpenAiChatRequest {
    pub url: String,
    pub api_key: String,
    pub model: String,
    pub messages: Vec<OpenAiMessage>,
    pub max_tokens: u32,
}

/// An embeddings request: where it goes, its bearer token and its body.
pub struct OpenAiEmbeddingRequest {
    pub url: String,
    pub api_key: String,
    pub model: String,
    pub input: Vec<String>,
}

/// The wire role of a canonical role.
pub open spec fn openai_role(r: LLMUserType) -> Seq<char> {
    match r {
        LLMUserType::Human => "user"@,
        LLMUserType::AI => "assistant"@,
        LLMUserType::System => "system"@,
    }
}

/// `data:<mime>;base64,<data>`.
pub open spec fn data_url(mime: Seq<char>, data: Seq<char>) -> Seq<char> {
    "data:"@ + mime + ";base64,"@ + data
}

/// The typed part sent for a content part; images without a source path
/// are declared `image/png`.
pub open spec fn openai_request_part(p: PartView) -> ContentPartView {
    match p {
        PartView::Text(t) => ContentPartView {
            kind: "text"@,
            text: Some(t),
            image_url: None,
            image_base64: None,
        },
        PartView::Image { data, path } => ContentPartView {
            kind: "input_image"@,
            text: None,
            image_url: Some(data_url(image_mime(path, "image/png"@), data)),
            image_base64: None,
        },
    }
}

/// The content sent for a message's parts: the texts joined by newlines when
/// every part is text (an empty string for no parts), else the typed parts.
pub open spec fn openai_content(parts: Seq<PartView>) -> ChatContentView {
    if all_text(parts) {
        ChatContentView::Text(join_lines(text_segments(parts)))
    } else {
        ChatContentView::Parts(parts.map_values(|p: PartView| openai_request_part(p)))
    }
}

/// What follows the first comma of a data URL, if it has one.
pub open spec fn data_url_payload(url: Seq<char>) -> Option<Seq<char>>
    decreases url.len(),
{
    if url.len() == 0 {
        None
    } else if url[0] == ',' {
        Some(url.drop_first())
    } else {
        data_url_payload(url.drop_first())
    }
}

/// The text of a part whose type is not understood: its text, else its
/// base64 data, else a note that names the type.
pub open spec fn unsupported_part_text(p: ContentPartView) -> Seq<char> {
    match p.text {
        Some(t) => t,
        None => match p.image_base64 {
            Some(b) => b,
            None => "Unsupported OpenAI content type: "@ + p.kind,
        },
    }
}

/// The content parts read from one typed part of an answer (none or one).
pub open spec fn openai_response_part(p: ContentPartView) -> Seq<PartView> {
    if p.kind == "text"@ || p.kind == "output_text"@ {
        match p.text {
            Some(t) => seq![PartView::Text(t)],
            None => Seq::empty(),
        }
    } else if p.kind == "output_image"@ || p.kind == "input_image"@ {
        match p.image_base64 {
            Some(b) => seq![PartView::Image { data: b, path: None }],
            None => match p.image_url {
                Some(u) => match data_url_payload(u) {
                    Some(d) => seq![PartView::Image { data: d, path: None }],
                    None => seq![PartView::Text(u)],
                },
                None => Seq::empty(),
            },
        }
    } else {
        seq![PartView::Text(unsupported_part_text(p))]
    }
}

/// The content parts read from the typed parts of an answer, in order.
pub open spec fn openai_response_parts(ps: Seq<ContentPartView>) -> Seq<PartView>
    decreases ps.len(),
{
    if ps.len() == 0 {
        Seq::empty()
    } else {
        openai_response_parts(ps.drop_last()) + openai_response_part(ps.last())
    }
}

/// The content parts read from an answer's message content.
pub open spec fn openai_answer_parts(content: Option<ChatContentView>) -> Seq<PartView> {
    match content {
        Some(ChatContentView::Text(t)) => seq![PartView::Text(t)],
        Some(ChatContentView::Parts(ps)) => openai_response_parts(ps),
        None => Seq::empty(),
    }
}

/// The view of an optional message content.
pub open spec fn opt_content_view(c: Option<ChatContent>) -> Option<ChatContentView> {
    match c {
        Some(x) => Some(x@),
        None => None,
    }
}

/// The text of a part of type `text`.
fn request_text_part(t: String) -> (r: ChatContentPart)
    ensures
        r@ == openai_request_part(PartView::Text(t@)),
{
    ChatContentPart { kind: String::from_str("text"), text: Some(t), image_url: None, image_base64: None }
}

/// Builds `data:<mime>;base64,<data>`.
fn make_data_url(mime: &str, data: &str) -> (r: String)
    ensures
        r@ == data_url(mime@, data@),
{
    let mut u = String::from_str("data:");
    u.append(mime);
    u.append(";base64,");
    u.append(data);
    u
}

/// Converts one message: its wire role, and its content as `openai_content`
/// describes.
pub fn convert_message(message: &LLMMessage) -> (r: OpenAiMessage)
    ensures
        r.role@ == openai_role(message.role),
        r.content@ == openai_content(parts_view(message.content@)),
{
    let role = match message.role {
        LLMUserType::Human => String::from_str("user"),
        LLMUserType::AI => String::from_str("assistant"),
        LLMUserType::System => String::from_str("system"),
    };
    let ghost pv = parts_view(message.content@);
    if is_all_text(&message.content) {
        let texts = collect_texts(&message.content);
        let joined = join_lines_exec(&texts);
        return OpenAiMessage { role, content: ChatContent::Text(joined) };
    }
    let mut items: Vec<ChatContentPart> = Vec::new();
    let mut i: usize = 0;
    while i < message.content.len()
        invariant
            i <= message.content@.len(),
            pv == parts_view(message.content@),
            items@.len() == i,
            forall|j: int| 0 <= j < i ==> (#[trigger] items@[j])@ == openai_request_part(pv[j]),
        decreases message.content.len() - i,
    {
        let item = match &message.content[i] {
            LLMMessageType::TEXT(t) => request_text_part(t.clone()),
            LLMMessageType::IMAGE { data_b64, file_path } => {
                let mime = image_mime_for(file_path, "image/png");
                let url = make_data_url(mime.as_str(), data_b64.as_str());
                proof {
                    reveal_strlit("input_image");
                }
                ChatContentPart {
                    kind: String::from_str("input_image"),
                    text: None,
                    image_url: Some(ChatContentImageUrl { url }),
                    image_base64: None,
                }
            },
        };
        assert(item@ == openai_request_part(pv[i as int]));
        items.push(item);
        i = i + 1;
    }
    assert(content_parts_view(items@) =~= pv.map_values(|p: PartView| openai_request_part(p)));
    OpenAiMessage { role, content: ChatContent::Parts(items) }
}

/// Converts every message, in order.
pub fn convert_messages_to_openai(messages: &Vec<LLMMessage>) -> (r: Vec<OpenAiMessage>)
    ensures
        r@.len() == messages@.len(),
        forall|i: int|
            0 <= i < messages@.len() ==> {
                &&& (#[trigger] r@[i]).role@ == openai_role(messages@[i].role)
                &&& r@[i].content@ == openai_content(parts_view(messages@[i].content@))
            },
{
    let mut out: Vec<OpenAiMessage> = Vec::new();
    let mut i: usize = 0;
    while i < messages.len()
        invariant
            i <= messages@.len(),
            out@.len() == i,
            forall|j: int|
                0 <= j < i ==> {
                    &&& (#[trigger] out@[j]).role@ == openai_role(messages@[j].role)
                    &&& out@[j].content@ == openai_content(parts_view(messages@[j].content@))
                },
        decreases messages.len() - i,
    {
        out.push(convert_message(&messages[i]));
        i = i + 1;
    }
    out
}

/// `{endpoint}/{path}` with the endpoint's trailing slashes removed.
pub open spec fn endpoint_url(endpoint: Seq<char>, path: Seq<char>) -> Seq<char> {
    trimmed_end(endpoint) + "/"@ + path
}

/// What the chat completion request for `messages` is: sent to
/// `{endpoint}/chat/completions` with the client's key and model, the
/// `max_tokens` ceiling, and each message converted by role and content.
pub open spec fn is_chat_request(q: OpenAiChatRequest, client: LLMClient, messages: Seq<LLMMessage>) -> bool {
    &&& q.url@ == endpoint_url(client.spec_endpoint(), "chat/completions"@)
    &&& q.api_key@ == client.spec_api_key()
    &&& q.model@ == client.spec_default_model()
    &&& q.max_tokens == OPENAI_MAX_TOKENS
    &&& q.messages@.len() == messages.len()
    &&& forall|i: int|
        0 <= i < messages.len() ==> {
            &&& (#[trigger] q.messages@[i]).role@ == openai_role(messages[i].role)
            &&& q.messages@[i].content@ == openai_content(parts_view(messages[i].content@))
        }
}

/// The chat completion request for `messages`.
pub fn build_chat_request(client: &LLMClient, messages: &Vec<LLMMessage>) -> (r: OpenAiChatRequest)
    ensures
        is_chat_request(r, *client, messages@),
{
    let mut url = trim_end_slashes(client.endpoint());
    url.append("/chat/completions");
    proof {
        reveal_strlit("/chat/completions");
        reveal_strlit("/");
        reveal_strlit("chat/completions");
        assert("/chat/completions"@ =~= "/"@ + "chat/completions"@);
        assert(url@ =~= endpoint_url(client.spec_endpoint(), "chat/completions"@));
    }
    OpenAiChatRequest {
        url,
        api_key: String::from_str(client.api_key()),
        model: String::from_str(client.default_model()),
        messages: convert_messages_to_openai(messages),
        max_tokens: OPENAI_MAX_TOKENS,
    }
}

/// The base64 payload of a data URL: what follows its first comma.
pub fn extract_data_url_base64(url: &str) -> (r: Option<String>)
    ensures
        opt_view(r) == data_url_payload(url@),
{
    let n = url.unicode_len();
    let mut i: usize = 0;
    assert(url@.subrange(0, n as int) =~= url@);
    while i < n
        invariant
            n == url@.len(),
            i <= n,
            data_url_payload(url@) == data_url_payload(url@.subrange(i as int, n as int)),
        decreases n - i,
    {
        assert(url@.subrange(i as int, n as int).drop_first() =~= url@.subrange(i + 1, n as int));
        if url.get_char(i) == ',' {
            return Some(String::from_str(url.substring_char(i + 1, n)));
        }
        i = i + 1;
    }
    None
}

/// The content part read from one typed part of an answer, if any.
fn convert_openai_part(part: &ChatContentPart) -> (r: Option<LLMMessageType>)
    ensures
        match r {
            Some(x) => openai_response_part(part@) == seq![x@],
            None => openai_response_part(part@) == Seq::<PartView>::empty(),
        },
{
    proof {
        reveal_strlit("text");
        reveal_strlit("output_text");
        reveal_strlit("output_image");
        reveal_strlit("input_image");
    }
    let kind = part.kind.as_str();
    if str_equals(kind, "text") || str_equals(kind, "output_text") {
        match &part.text {
            Some(t) => Some(LLMMessageType::text(t.clone())),
            None => None,
        }
    } else if str_equals(kind, "output_image") || str_equals(kind, "input_image") {
        match &part.image_base64 {
            Some(b) => Some(LLMMessageType::image_b64(b.clone())),
            None => match &part.image_url {
                Some(u) => match extract_data_url_base64(u.url.as_str()) {
                    Some(d) => Some(LLMMessageType::image_b64(d)),
                    None => Some(LLMMessageType::text(u.url.clone())),
                },
                None => None,
            },
        }
    } else {
        let fallback = match &part.text {
            Some(t) => t.clone(),
            None => match &part.image_base64 {
                Some(b) => b.clone(),
                None => {
                    let mut note = String::from_str("Unsupported OpenAI content type: ");
                    note.append(kind);
                    note
                },
            },
        };
        Some(LLMMessageType::text(fallback))
    }
}

/// The content parts read from the typed parts of an answer, in order;
/// parts of an unknown type become text.
pub fn convert_openai_parts(parts: &Vec<ChatContentPart>) -> (r: Vec<LLMMessageType>)
    ensures
        parts_view(r@) == openai_response_parts(content_parts_view(parts@)),
{
    let ghost cv = content_parts_view(parts@);
    let mut results: Vec<LLMMessageType> = Vec::new();
    let mut i: usize = 0;
    while i < parts.len()
        invariant
            i <= parts@.len(),
            cv == content_parts_view(parts@),
            parts_view(results@) == openai_response_parts(cv.subrange(0, i as int)),
        decreases parts.len() - i,
    {
        let ghost before = results@;
        match convert_openai_part(&parts[i]) {
            Some(x) => results.push(x),
            None => {},
        }
        proof {
            assert(cv.subrange(0, i + 1).drop_last() =~= cv.subrange(0, i as int));
            assert(parts_view(results@) =~= parts_view(before) + openai_response_part(cv[i as int]));
        }
        i = i + 1;
    }
    assert(cv.subrange(0, cv.len() as int) =~= cv);
    results
}

/// The role string of an answer, `assistant` when it names none.
pub open spec fn answer_role(role: Option<String>) -> Seq<char> {
    match role {
        Some(r) => r@,
        None => "assistant"@,
    }
}

/// What the message read from an answer with at least one choice is.
pub open spec fn answer_message(response: ChatCompletionResponse, m: LLMMessage) -> bool {
    let first = response.choices@[0].message;
    &&& m.role == canonical_role(answer_role(first.role))
    &&& parts_view(m.content@) == nonempty_parts(openai_answer_parts(opt_content_view(first.content)))
    &&& (response.id matches Some(id) ==> m.id == id)
}

/// The message of the first choice of an answer.  No choice at all is a
/// semantic error.  The content is read by `openai_answer_parts`, with one
/// empty text part standing in for none.
pub fn convert_openai_response(response: ChatCompletionResponse) -> (r: Result<LLMMessage, ProviderError>)
    ensures
        response.choices@.len() == 0 <==> r is Err,
        r matches Err(e) ==> e.kind == ErrorKind::Semantic,
        r matches Ok(m) ==> answer_message(response, m),
{
    if response.choices.len() == 0 {
        return Err(ProviderError::new(ErrorKind::Semantic, String::from_str("No choices returned from OpenAI")));
    }
    let first = &response.choices[0].message;
    let role = match &first.role {
        Some(r) => r.clone(),
        None => String::from_str("assistant"),
    };
    let mut contents: Vec<LLMMessageType> = match &first.content {
        Some(ChatContent::Text(t)) => {
            let mut v: Vec<LLMMessageType> = Vec::new();
            v.push(LLMMessageType::text(t.clone()));
            proof {
                assert(parts_view(v@) =~= seq![PartView::Text(t@)]);
            }
            v
        },
        Some(ChatContent::Parts(ps)) => convert_openai_parts(ps),
        None => Vec::new(),
    };
    if contents.len() == 0 {
        contents.push(LLMMessageType::text(String::new()));
        proof {
            assert(parts_view(contents@) =~= seq![PartView::Text(Seq::empty())]);
        }
    }
    Ok(LLMMessage::new(response.id, role.as_str(), contents))
}

/// What an embeddings request is: sent to `{endpoint}/embeddings` with the
/// client's key and model and the inputs in order.
pub open spec fn is_embedding_request(q: OpenAiEmbeddingRequest, client: LLMClient, inputs: Seq<String>) -> bool {
    &&& q.url@ == endpoint_url(client.spec_endpoint(), "embeddings"@)
    &&& q.api_key@ == client.spec_api_key()
    &&& q.model@ == client.spec_default_model()
    &&& q.input@ == inputs
}

/// The embeddings request for `inputs`; none for no inputs, which need no call.
pub fn build_embedding_request(client: &LLMClient, inputs: &Vec<String>) -> (r: Option<OpenAiEmbeddingRequest>)
    ensures
        inputs@.len() == 0 <==> r is None,
        r matches Some(q) ==> is_embedding_request(q, *client, inputs@),
{
    if inputs.len() == 0 {
        return None;
    }
    let mut url = trim_end_slashes(client.endpoint());
    url.append("/embeddings");
    proof {
        reveal_strlit("/embeddings");
        reveal_strlit("/");
        reveal_strlit("embeddings");
        assert("/embeddings"@ =~= "/"@ + "embeddings"@);
        assert(url@ =~= endpoint_url(client.spec_endpoint(), "embeddings"@));
    }
    let mut input: Vec<String> = Vec::new();
    let mut i: usize = 0;
    while i < inputs.len()
        invariant
            i <= inputs@.len(),
            input@ == inputs@.subrange(0, i as int),
        decreases inputs.len() - i,
    {
        input.push(inputs[i].clone());
        assert(input@ =~= inputs@.subrange(0, i + 1));
        i = i + 1;
    }
    assert(inputs@.subrange(0, inputs@.len() as int) =~= inputs@);
    Some(OpenAiEmbeddingRequest {
        url,
        api_key: String::from_str(client.api_key()),
        model: String::from_str(client.default_model()),
        input,
    })
}

} // verus!
