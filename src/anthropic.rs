//! The Anthropic-style protocol: messages with a separate system prompt.
use vstd::prelude::*;
use crate::openai::endpoint_url;
use crate::text::{join_lines, join_lines_exec, str_equals, trim_end_slashes};
use crate::types::{
    canonical_role, collect_texts, image_mime, image_mime_for, nonempty_parts, opt_view,
    parts_view, text_segments, LLMClient, LLMMessage, LLMMessageType, LLMUserType, PartView,
};

verus! {

/// The `max_tokens` ceiling sent with every request.
pub const ANTHROPIC_MAX_TOKENS: u32 = 1024;

/// A decoded messages answer.
pub struct AnthropicResponse {
    pub id: Option<String>,
    pub role: Option<String>,
    pub content: Vec<AnthropicContent>,
}

/// One typed content block of an answer.  `extra` holds the JSON text of the
/// block's `extra` field when that field is present and not null.
pub struct AnthropicContent {
    pub kind: String,
    pub text: Option<String>,
    pub source: Option<AnthropicImageSource>,
    pub extra: Option<String>,
}

pub struct AnthropicImageSource {
    pub data: Option<String>,
}

/// One content block of a request.
pub enum AnthropicPart {
    Text { text: String },
    Image { media_type: String, data: String },
}

/// One turn of a request.
pub struct AnthropicMessage {
    pub role: String,
    pub content: Vec<AnthropicPart>,
}

/// A messages request: where it goes, its headers and its body.
pub struct AnthropicChatRequest {
    pub url: String,
    pub api_key: String,
    pub version: String,
    pub model: String,
    pub messages: Vec<AnthropicMessage>,
    pub system: Option<String>,
    pub max_tokens: u32,
}

/// The mathematical value of a request content block.
pub enum AnthropicPartView {
    Text(Seq<char>),
    Image { media_type: Seq<char>, data: Seq<char> },
}

impl View for AnthropicPart {
    type V = AnthropicPartView;

    open spec fn view(&self) -> AnthropicPartView {
        match self {
            AnthropicPart::Text { text } => AnthropicPartView::Text(text@),
            AnthropicPart::Image { media_type, data } => AnthropicPartView::Image {
                media_type: media_type@,
                data: data@,
            },
        }
    }
}

/// The mathematical value of a request turn.
pub struct AnthropicMessageView {
    pub role: Seq<char>,
    pub content: Seq<AnthropicPartView>,
}

impl View for AnthropicMessage {
    type V = AnthropicMessageView;

    open spec fn view(&self) -> AnthropicMessageView {
        AnthropicMessageView {
            role: self.role@,
            content: self.content@.map_values(|p: AnthropicPart| p@),
        }
    }
}

/// The mathematical value of an answer content block.
pub struct AnthropicContentView {
    pub kind: Seq<char>,
    pub text: Option<Seq<char>>,
    pub source_data: Option<Option<Seq<char>>>,
    pub extra: Option<Seq<char>>,
}

impl View for AnthropicContent {
    type V = AnthropicContentView;

    open spec fn view(&self) -> AnthropicContentView {
        AnthropicContentView {
            kind: self.kind@,
            text: opt_view(self.text),
            source_data: match self.source {
                Some(s) => Some(opt_view(s.data)),
                None => None,
            },
            extra: opt_view(self.extra),
        }
    }
}

/// The block sent for a content part; images without a source path are
/// declared `image/png`.
pub open spec fn anthropic_part(p: PartView) -> AnthropicPartView {
    match p {
        PartView::Text(t) => AnthropicPartView::Text(t),
        PartView::Image { data, path } => AnthropicPartView::Image {
            media_type: image_mime(path, "image/png"@),
            data,
        },
    }
}

/// The blocks sent for a turn's parts: always an array, with one empty text
/// block standing in for no parts.
pub open spec fn anthropic_content(parts: Seq<PartView>) -> Seq<AnthropicPartView> {
    nonempty_parts(parts).map_values(|p: PartView| anthropic_part(p))
}

/// The text a system message contributes: its text parts joined by newlines.
pub open spec fn system_text(m: LLMMessage) -> Seq<char> {
    join_lines(text_segments(parts_view(m.content@)))
}

/// The wire role of a non-system turn.
pub open spec fn anthropic_role(r: LLMUserType) -> Seq<char> {
    match r {
        LLMUserType::AI => "assistant"@,
        _ => "user"@,
    }
}

/// The turns sent for `ms`: every message but the system ones, in order.
pub open spec fn anthropic_turns(ms: Seq<LLMMessage>) -> Seq<AnthropicMessageView>
    decreases ms.len(),
{
    if ms.len() == 0 {
        Seq::empty()
    } else if ms.last().role == LLMUserType::System {
        anthropic_turns(ms.drop_last())
    } else {
        anthropic_turns(ms.drop_last()).push(
            AnthropicMessageView {
                role: anthropic_role(ms.last().role),
                content: anthropic_content(parts_view(ms.last().content@)),
            },
        )
    }
}

/// The non-empty texts of the system messages of `ms`, in order.
pub open spec fn system_segments(ms: Seq<LLMMessage>) -> Seq<Seq<char>>
    decreases ms.len(),
{
    if ms.len() == 0 {
        Seq::empty()
    } else if ms.last().role == LLMUserType::System && system_text(ms.last()).len() > 0 {
        system_segments(ms.drop_last()).push(system_text(ms.last()))
    } else {
        system_segments(ms.drop_last())
    }
}

/// The top-level `system` field: the system segments joined by newlines,
/// absent when there are none.
pub open spec fn anthropic_system(ms: Seq<LLMMessage>) -> Option<Seq<char>> {
    let segs = system_segments(ms);
    if segs.len() == 0 {
        None
    } else {
        Some(join_lines(segs))
    }
}

/// The text parts of a message joined by newlines; images are skipped.
pub fn extract_text_from_message_content(content: &Vec<LLMMessageType>) -> (r: String)
    ensures
        r@ == join_lines(text_segments(parts_view(content@))),
{
    let texts = collect_texts(content);
    join_lines_exec(&texts)
}

/// The blocks of one turn, as `anthropic_content` describes.
pub fn convert_message_content_to_anthropic(content: &Vec<LLMMessageType>) -> (r: Vec<AnthropicPart>)
    ensures
        r@.map_values(|p: AnthropicPart| p@) == anthropic_content(parts_view(content@)),
{
    let ghost pv = parts_view(content@);
    let mut parts: Vec<AnthropicPart> = Vec::new();
    let mut i: usize = 0;
    while i < content.len()
        invariant
            i <= content@.len(),
            pv == parts_view(content@),
            parts@.len() == i,
            forall|j: int| 0 <= j < i ==> (#[trigger] parts@[j])@ == anthropic_part(pv[j]),
        decreases content.len() - i,
    {
        let part = match &content[i] {
            LLMMessageType::TEXT(t) => AnthropicPart::Text { text: t.clone() },
            LLMMessageType::IMAGE { data_b64, file_path } => AnthropicPart::Image {
                media_type: image_mime_for(file_path, "image/png"),
                data: data_b64.clone(),
            },
        };
        parts.push(part);
        i = i + 1;
    }
    if parts.len() == 0 {
        parts.push(AnthropicPart::Text { text: String::new() });
        assert(parts@.map_values(|p: AnthropicPart| p@) =~= anthropic_content(pv));
    } else {
        assert(parts@.map_values(|p: AnthropicPart| p@) =~= anthropic_content(pv));
    }
    parts
}

/// Splits messages into the turns sent and the `system` field.
pub fn convert_messages_to_anthropic(messages: &Vec<LLMMessage>) -> (r: (Vec<AnthropicMessage>, Option<String>))
    ensures
        r.0@.map_values(|m: AnthropicMessage| m@) == anthropic_turns(messages@),
        opt_view(r.1) == anthropic_system(messages@),
{
    let mut system_parts: Vec<String> = Vec::new();
    let mut converted: Vec<AnthropicMessage> = Vec::new();
    let mut i: usize = 0;
    while i < messages.len()
        invariant
            i <= messages@.len(),
            converted@.map_values(|m: AnthropicMessage| m@) == anthropic_turns(
                messages@.subrange(0, i as int),
            ),
            system_parts@.map_values(|s: String| s@) == system_segments(
                messages@.subrange(0, i as int),
            ),
        decreases messages.len() - i,
    {
        let ghost prefix = messages@.subrange(0, i + 1);
        assert(prefix.drop_last() =~= messages@.subrange(0, i as int));
        let message = &messages[i];
        match message.role {
            LLMUserType::System => {
                let text = extract_text_from_message_content(&message.content);
                if text.unicode_len() > 0 {
                    system_parts.push(text);
                }
                assert(system_parts@.map_values(|s: String| s@) =~= system_segments(prefix));
                assert(converted@.map_values(|m: AnthropicMessage| m@) =~= anthropic_turns(prefix));
            },
            _ => {
                let role = match message.role {
                    LLMUserType::AI => String::from_str("assistant"),
                    _ => String::from_str("user"),
                };
                let content = convert_message_content_to_anthropic(&message.content);
                let ghost before = converted@;
                converted.push(AnthropicMessage { role, content });
                assert(converted@.map_values(|m: AnthropicMessage| m@) =~= anthropic_turns(prefix))
                    by {
                    assert(converted@ =~= before.push(converted@.last()));
                };
                assert(system_parts@.map_values(|s: String| s@) =~= system_segments(prefix));
            },
        }
        i = i + 1;
    }
    assert(messages@.subrange(0, messages@.len() as int) =~= messages@);
    let system = if system_parts.len() == 0 {
        None
    } else {
        Some(join_lines_exec(&system_parts))
    };
    (converted, system)
}

/// The content parts read from one block of an answer (none or one).
pub open spec fn anthropic_response_part(p: AnthropicContentView) -> Seq<PartView> {
    if p.kind == "text"@ {
        match p.text {
            Some(t) => seq![PartView::Text(t)],
            None => Seq::empty(),
        }
    } else if p.kind == "image"@ {
        match p.source_data {
            Some(Some(d)) => seq![PartView::Image { data: d, path: None }],
            _ => Seq::empty(),
        }
    } else {
        seq![
            PartView::Text(
                match p.extra {
                    Some(x) => x,
                    None => "Unsupported Anthropic content type: "@ + p.kind,
                },
            ),
        ]
    }
}

/// The content parts read from the blocks of an answer, in order.
pub open spec fn anthropic_response_parts(ps: Seq<AnthropicContentView>) -> Seq<PartView>
    decreases ps.len(),
{
    if ps.len() == 0 {
        Seq::empty()
    } else {
        anthropic_response_parts(ps.drop_last()) + anthropic_response_part(ps.last())
    }
}

/// The content part read from one block of an answer, if any.
fn convert_anthropic_part(part: &AnthropicContent) -> (r: Option<LLMMessageType>)
    ensures
        match r {
            Some(x) => anthropic_response_part(part@) == seq![x@],
            None => anthropic_response_part(part@) == Seq::<PartView>::empty(),
        },
{
    proof {
        reveal_strlit("text");
        reveal_strlit("image");
    }
    let kind = part.kind.as_str();
    if str_equals(kind, "text") {
        match &part.text {
            Some(t) => Some(LLMMessageType::text(t.clone())),
            None => None,
        }
    } else if str_equals(kind, "image") {
        match &part.source {
            Some(source) => match &source.data {
                Some(d) => Some(LLMMessageType::image_b64(d.clone())),
                None => None,
            },
            None => None,
        }
    } else {
        let fallback = match &part.extra {
            Some(x) => x.clone(),
            None => {
                let mut note = String::from_str("Unsupported Anthropic content type: ");
                note.append(kind);
                note
            },
        };
        Some(LLMMessageType::text(fallback))
    }
}

/// The content parts read from the blocks of an answer, in order; blocks of
/// an unknown type become text.
pub fn convert_anthropic_parts(parts: &Vec<AnthropicContent>) -> (r: Vec<LLMMessageType>)
    ensures
        parts_view(r@) == anthropic_response_parts(parts@.map_values(|p: AnthropicContent| p@)),
{
    let ghost cv = parts@.map_values(|p: AnthropicContent| p@);
    let mut result: Vec<LLMMessageType> = Vec::new();
    let mut i: usize = 0;
    while i < parts.len()
        invariant
            i <= parts@.len(),
            cv == parts@.map_values(|p: AnthropicContent| p@),
            parts_view(result@) == anthropic_response_parts(cv.subrange(0, i as int)),
        decreases parts.len() - i,
    {
        let ghost before = result@;
        match convert_anthropic_part(&parts[i]) {
            Some(x) => result.push(x),
            None => {},
        }
        proof {
            assert(cv.subrange(0, i + 1).drop_last() =~= cv.subrange(0, i as int));
            assert(parts_view(result@) =~= parts_view(before) + anthropic_response_part(cv[i as int]));
        }
        i = i + 1;
    }
    assert(cv.subrange(0, cv.len() as int) =~= cv);
    result
}

/// What the message read from an answer is.
pub open spec fn answer_message(response: AnthropicResponse, m: LLMMessage) -> bool {
    &&& m.role == canonical_role(crate::openai::answer_role(response.role))
    &&& parts_view(m.content@) == nonempty_parts(
        anthropic_response_parts(response.content@.map_values(|p: AnthropicContent| p@)),
    )
    &&& (response.id matches Some(id) ==> m.id == id)
}

/// The message of an answer: its blocks read in order, one empty text part
/// standing in for none, and its role (`assistant` when it names none).
pub fn convert_anthropic_response(response: AnthropicResponse) -> (r: LLMMessage)
    ensures
        answer_message(response, r),
{
    let role = match &response.role {
        Some(r) => r.clone(),
        None => String::from_str("assistant"),
    };
    let mut contents = convert_anthropic_parts(&response.content);
    if contents.len() == 0 {
        contents.push(LLMMessageType::text(String::new()));
        proof {
            assert(parts_view(contents@) =~= seq![PartView::Text(Seq::empty())]);
        }
    }
    LLMMessage::new(response.id, role.as_str(), contents)
}

/// The version header sent with every request.
pub open spec fn anthropic_version() -> Seq<char> {
    "2023-06-01"@
}

/// What the messages request for `messages` is: sent to `{endpoint}/messages`
/// with the client's key, the version header, the client's model and the
/// `max_tokens` ceiling; system messages go to `system`, the rest are turns.
pub open spec fn is_chat_request(q: AnthropicChatRequest, client: LLMClient, messages: Seq<LLMMessage>) -> bool {
    &&& q.url@ == endpoint_url(client.spec_endpoint(), "messages"@)
    &&& q.api_key@ == client.spec_api_key()
    &&& q.version@ == anthropic_version()
    &&& q.model@ == client.spec_default_model()
    &&& q.max_tokens == ANTHROPIC_MAX_TOKENS
    &&& q.messages@.map_values(|m: AnthropicMessage| m@) == anthropic_turns(messages)
    &&& opt_view(q.system) == anthropic_system(messages)
}

/// The messages request for `messages`.
pub fn build_chat_request(client: &LLMClient, messages: &Vec<LLMMessage>) -> (r: AnthropicChatRequest)
    ensures
        is_chat_request(r, *client, messages@),
{
    let mut url = trim_end_slashes(client.endpoint());
    url.append("/messages");
    proof {
        reveal_strlit("/messages");
        reveal_strlit("/");
        reveal_strlit("messages");
        assert("/messages"@ =~= "/"@ + "messages"@);
        assert(url@ =~= endpoint_url(client.spec_endpoint(), "messages"@));
    }
    let (turns, system) = convert_messages_to_anthropic(messages);
    AnthropicChatRequest {
        url,
        api_key: String::from_str(client.api_key()),
        version: String::from_str("2023-06-01"),
        model: String::from_str(client.default_model()),
        messages: turns,
        system,
        max_tokens: ANTHROPIC_MAX_TOKENS,
    }
}

} // verus!
