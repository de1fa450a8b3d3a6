//! The Gemini-style protocol: content generation and embeddings.
use vstd::prelude::*;
use crate::support::{base64_bytes, base64_decode};
use crate::text::{has_prefix, starts_with, trim_end_slashes, trimmed_end};
use crate::types::{
    image_mime, image_mime_for, nonempty_parts, opt_view, parts_view, ErrorKind, LLMClient,
    LLMMessage, LLMMessageType, LLMUserType, PartView, ProviderError,
};

verus! {

/// A decoded generation answer.
pub struct GeminiResponse {
    pub candidates: Vec<Candidate>,
    pub usage_metadata: Option<UsageMetadata>,
    pub model_version: Option<String>,
    pub response_id: Option<String>,
}

pub struct Candidate {
    pub content: Content,
    pub finish_reason: Option<String>,
    pub index: Option<u32>,
}

/// A role and its parts, as sent in a request and as received.
pub struct Content {
    pub parts: Vec<Part>,
    pub role: Option<String>,
}

/// One part: text, inline data, or (in answers) both or neither.
pub struct Part {
    pub text: Option<String>,
    pub inline_data: Option<InlineData>,
}

pub struct InlineData {
    pub mime_type: String,
    pub data: String,
}

pub struct UsageMetadata {
    pub prompt_token_count: Option<u32>,
    pub candidates_token_count: Option<u32>,
    pub total_token_count: Option<u32>,
    pub prompt_tokens_details: Option<Vec<TokenDetail>>,
    pub candidates_tokens_details: Option<Vec<TokenDetail>>,
}

pub struct TokenDetail {
    pub modality: Option<String>,
    pub token_count: Option<u32>,
}

/// A decoded `embedContent` answer; `V` is one embedding.
pub struct GeminiEmbedResponse<V> {
    pub embedding: Option<V>,
    pub usage_metadata: Option<UsageMetadata>,
    pub model_version: Option<String>,
    pub response_id: Option<String>,
}

/// A decoded `batchEmbedContents` answer; `V` is one embedding.
pub struct GeminiBatchEmbedResponse<V> {
    pub embeddings: Option<Vec<V>>,
    pub usage_metadata: Option<UsageMetadata>,
    pub model_version: Option<String>,
    pub response_id: Option<String>,
}

/// A generation request: where it goes, its key header and its contents.
pub struct GeminiChatRequest {
    pub url: String,
    pub api_key: String,
    pub contents: Vec<Content>,
}

/// Which embedding endpoint a request goes to.
#[derive(Clone, Copy, Debug, PartialEq, Eq, Structural)]
pub enum EmbedMethod {
    /// `embedContent`, for exactly one text.
    Single,
    /// `batchEmbedContents`, for any other number of texts.
    Batch,
}

/// One embedding request: the `models/`-prefixed model and one text part.
pub struct EmbedContentRequest {
    pub model: String,
    pub content: Content,
}

/// An embedding request: where it goes, its key header, its endpoint and its
/// per-text requests (the single one, or the batch's `requests`).
pub struct GeminiEmbedRequest {
    pub url: String,
    pub api_key: String,
    pub method: EmbedMethod,
    pub requests: Vec<EmbedContentRequest>,
}

/// The mathematical value of a part.
pub struct PartWireView {
    pub text: Option<Seq<char>>,
    pub inline: Option<(Seq<char>, Seq<char>)>,
}

impl View for Part {
    type V = PartWireView;

    open spec fn view(&self) -> PartWireView {
        PartWireView {
            text: opt_view(self.text),
            inline: match self.inline_data {
                Some(d) => Some((d.mime_type@, d.data@)),
                None => None,
            },
        }
    }
}

/// The views of a sequence of parts.
pub open spec fn wire_parts_view(ps: Seq<Part>) -> Seq<PartWireView> {
    ps.map_values(|p: Part| p@)
}

/// The wire role of a canonical role; system messages are sent inline.
pub open spec fn gemini_role(r: LLMUserType) -> Seq<char> {
    match r {
        LLMUserType::Human => "user"@,
        LLMUserType::AI => "model"@,
        LLMUserType::System => "system"@,
    }
}

/// The part sent for a content part; images without a source path are
/// declared `image/jpeg`.
pub open spec fn gemini_part(p: PartView) -> PartWireView {
    match p {
        PartView::Text(t) => PartWireView { text: Some(t), inline: None },
        PartView::Image { data, path } => PartWireView {
            text: None,
            inline: Some((image_mime(path, "image/jpeg"@), data)),
        },
    }
}

/// The parts sent for a message: one empty text part standing in for none.
pub open spec fn gemini_parts(parts: Seq<PartView>) -> Seq<PartWireView> {
    nonempty_parts(parts).map_values(|p: PartView| gemini_part(p))
}

/// The wire role of a canonical role.
pub fn role_to_str(role: LLMUserType) -> (r: &'static str)
    ensures
        r@ == gemini_role(role),
{
    match role {
        LLMUserType::Human => "user",
        LLMUserType::AI => "model",
        LLMUserType::System => "system",
    }
}

/// The parts of one message, as `gemini_parts` describes.
pub fn convert_body_parts_gemini(body_part: &Vec<LLMMessageType>) -> (r: Vec<Part>)
    ensures
        wire_parts_view(r@) == gemini_parts(parts_view(body_part@)),
{
    let ghost pv = parts_view(body_part@);
    let mut out: Vec<Part> = Vec::new();
    let mut i: usize = 0;
    while i < body_part.len()
        invariant
            i <= body_part@.len(),
            pv == parts_view(body_part@),
            out@.len() == i,
            forall|j: int| 0 <= j < i ==> (#[trigger] out@[j])@ == gemini_part(pv[j]),
        decreases body_part.len() - i,
    {
        let part = match &body_part[i] {
            LLMMessageType::TEXT(t) => Part { text: Some(t.clone()), inline_data: None },
            LLMMessageType::IMAGE { data_b64, file_path } => Part {
                text: None,
                inline_data: Some(
                    InlineData {
                        mime_type: image_mime_for(file_path, "image/jpeg"),
                        data: data_b64.clone(),
                    },
                ),
            },
        };
        out.push(part);
        i = i + 1;
    }
    if out.len() == 0 {
        out.push(Part { text: Some(String::new()), inline_data: None });
    }
    assert(wire_parts_view(out@) =~= gemini_parts(pv));
    out
}

/// One content entry per message, in order: its wire role and its parts.
pub fn convert_messages_to_gemini_contents(messages: &Vec<LLMMessage>) -> (r: Vec<Content>)
    ensures
        r@.len() == messages@.len(),
        forall|i: int|
            0 <= i < messages@.len() ==> {
                &&& opt_view((#[trigger] r@[i]).role) == Some(gemini_role(messages@[i].role))
                &&& wire_parts_view(r@[i].parts@) == gemini_parts(parts_view(messages@[i].content@))
            },
{
    let mut out: Vec<Content> = Vec::new();
    let mut i: usize = 0;
    while i < messages.len()
        invariant
            i <= messages@.len(),
            out@.len() == i,
            forall|j: int|
                0 <= j < i ==> {
                    &&& opt_view((#[trigger] out@[j]).role) == Some(gemini_role(messages@[j].role))
                    &&& wire_parts_view(out@[j].parts@) == gemini_parts(
                        parts_view(messages@[j].content@),
                    )
                },
        decreases messages.len() - i,
    {
        let m = &messages[i];
        let parts = convert_body_parts_gemini(&m.content);
        out.push(Content { parts, role: Some(String::from_str(role_to_str(m.role))) });
        i = i + 1;
    }
    out
}

/// `{endpoint}/{model}{action}` with the endpoint's trailing slashes removed.
pub open spec fn model_url(endpoint: Seq<char>, model: Seq<char>, action: Seq<char>) -> Seq<char> {
    trimmed_end(endpoint) + "/"@ + model + action
}

fn make_model_url(endpoint: &str, model: &str, action: &str) -> (r: String)
    ensures
        r@ == model_url(endpoint@, model@, action@),
{
    let mut url = trim_end_slashes(endpoint);
    url.append("/");
    url.append(model);
    url.append(action);
    url
}

/// What the generation request for `messages` is: sent to
/// `{endpoint}/{model}:generateContent` with the client's key, one content
/// entry per message in order.
pub open spec fn is_chat_request(q: GeminiChatRequest, client: LLMClient, messages: Seq<LLMMessage>) -> bool {
    &&& q.url@ == model_url(client.spec_endpoint(), client.spec_default_model(), ":generateContent"@)
    &&& q.api_key@ == client.spec_api_key()
    &&& q.contents@.len() == messages.len()
    &&& forall|i: int|
        0 <= i < messages.len() ==> {
            &&& opt_view((#[trigger] q.contents@[i]).role) == Some(gemini_role(messages[i].role))
            &&& wire_parts_view(q.contents@[i].parts@) == gemini_parts(parts_view(messages[i].content@))
        }
}

/// The generation request for `messages`; system messages stay inline.
pub fn build_generate_request(client: &LLMClient, messages: &Vec<LLMMessage>) -> (r: GeminiChatRequest)
    ensures
        is_chat_request(r, *client, messages@),
{
    GeminiChatRequest {
        url: make_model_url(client.endpoint(), client.default_model(), ":generateContent"),
        api_key: String::from_str(client.api_key()),
        contents: convert_messages_to_gemini_contents(messages),
    }
}

/// The non-empty inline data of parts, in order.
pub open spec fn part_images(ps: Seq<PartWireView>) -> Seq<Seq<char>>
    decreases ps.len(),
{
    if ps.len() == 0 {
        Seq::empty()
    } else {
        part_images(ps.drop_last()) + match ps.last().inline {
            Some((_, d)) => if d.len() > 0 {
                seq![d]
            } else {
                Seq::empty()
            },
            None => Seq::empty(),
        }
    }
}

/// The non-empty inline data of every candidate, candidate by candidate.
pub open spec fn candidates_images(cs: Seq<Candidate>) -> Seq<Seq<char>>
    decreases cs.len(),
{
    if cs.len() == 0 {
        Seq::empty()
    } else {
        candidates_images(cs.drop_last()) + part_images(wire_parts_view(cs.last().content.parts@))
    }
}

/// The inline data of parts that decodes to at least one byte, decoded.
pub open spec fn part_image_bytes(ps: Seq<PartWireView>) -> Seq<Seq<u8>>
    decreases ps.len(),
{
    if ps.len() == 0 {
        Seq::empty()
    } else {
        part_image_bytes(ps.drop_last()) + match ps.last().inline {
            Some((_, d)) => match base64_bytes(d) {
                Some(b) => if b.len() > 0 {
                    seq![b]
                } else {
                    Seq::empty()
                },
                None => Seq::empty(),
            },
            None => Seq::empty(),
        }
    }
}

/// The decoded images of every candidate, candidate by candidate.
pub open spec fn candidates_image_bytes(cs: Seq<Candidate>) -> Seq<Seq<u8>>
    decreases cs.len(),
{
    if cs.len() == 0 {
        Seq::empty()
    } else {
        candidates_image_bytes(cs.drop_last()) + part_image_bytes(
            wire_parts_view(cs.last().content.parts@),
        )
    }
}

/// The texts of parts, concatenated with nothing between them.
pub open spec fn concat_texts(ps: Seq<PartWireView>) -> Seq<char>
    decreases ps.len(),
{
    if ps.len() == 0 {
        Seq::empty()
    } else {
        concat_texts(ps.drop_last()) + match ps.last().text {
            Some(t) => t,
            None => Seq::empty(),
        }
    }
}

/// The base64 images of one candidate's parts.
fn candidate_base64_images(candidate: &Candidate) -> (r: Vec<String>)
    ensures
        r@.map_values(|s: String| s@) == part_images(wire_parts_view(candidate.content.parts@)),
{
    let parts = &candidate.content.parts;
    let ghost pv = wire_parts_view(parts@);
    let mut out: Vec<String> = Vec::new();
    let mut i: usize = 0;
    while i < parts.len()
        invariant
            i <= parts@.len(),
            pv == wire_parts_view(parts@),
            out@.map_values(|s: String| s@) == part_images(pv.subrange(0, i as int)),
        decreases parts.len() - i,
    {
        let ghost before = out@;
        if let Some(d) = &parts[i].inline_data {
            if d.data.unicode_len() > 0 {
                out.push(d.data.clone());
            }
        }
        proof {
            assert(pv.subrange(0, i + 1).drop_last() =~= pv.subrange(0, i as int));
            assert(out@.map_values(|s: String| s@) =~= part_images(pv.subrange(0, i + 1)));
        }
        i = i + 1;
    }
    assert(pv.subrange(0, pv.len() as int) =~= pv);
    out
}

/// The non-empty base64 images of every candidate, in order.
pub fn response_to_base64_images(response: &GeminiResponse) -> (r: Vec<String>)
    ensures
        r@.map_values(|s: String| s@) == candidates_images(response.candidates@),
{
    let cs = &response.candidates;
    let mut out: Vec<String> = Vec::new();
    let mut i: usize = 0;
    while i < cs.len()
        invariant
            i <= cs@.len(),
            out@.map_values(|s: String| s@) == candidates_images(cs@.subrange(0, i as int)),
        decreases cs.len() - i,
    {
        let more = candidate_base64_images(&cs[i]);
        let ghost before = out@;
        let mut k: usize = 0;
        while k < more.len()
            invariant
                k <= more@.len(),
                out@ == before + more@.subrange(0, k as int),
            decreases more.len() - k,
        {
            out.push(more[k].clone());
            assert(out@ =~= before + more@.subrange(0, k + 1));
            k = k + 1;
        }
        proof {
            assert(more@.subrange(0, more@.len() as int) =~= more@);
            assert(cs@.subrange(0, i + 1).drop_last() =~= cs@.subrange(0, i as int));
            assert(out@.map_values(|s: String| s@) =~= before.map_values(|s: String| s@)
                + more@.map_values(|s: String| s@));
        }
        i = i + 1;
    }
    assert(cs@.subrange(0, cs@.len() as int) =~= cs@);
    out
}

/// The decoded images of one candidate's parts.
fn candidate_image_data(candidate: &Candidate) -> (r: Vec<Vec<u8>>)
    ensures
        r@.map_values(|v: Vec<u8>| v@) == part_image_bytes(wire_parts_view(candidate.content.parts@)),
{
    let parts = &candidate.content.parts;
    let ghost pv = wire_parts_view(parts@);
    let mut out: Vec<Vec<u8>> = Vec::new();
    let mut i: usize = 0;
    while i < parts.len()
        invariant
            i <= parts@.len(),
            pv == wire_parts_view(parts@),
            out@.map_values(|v: Vec<u8>| v@) == part_image_bytes(pv.subrange(0, i as int)),
        decreases parts.len() - i,
    {
        let ghost before = out@;
        if let Some(d) = &parts[i].inline_data {
            if let Some(bytes) = base64_decode(d.data.as_str()) {
                if bytes.len() > 0 {
                    out.push(bytes);
                }
            }
        }
        proof {
            assert(pv.subrange(0, i + 1).drop_last() =~= pv.subrange(0, i as int));
            assert(out@.map_values(|v: Vec<u8>| v@) =~= part_image_bytes(pv.subrange(0, i + 1)));
        }
        i = i + 1;
    }
    assert(pv.subrange(0, pv.len() as int) =~= pv);
    out
}

/// The images of every candidate, base64-decoded; data that does not decode,
/// or decodes to nothing, is left out.
pub fn response_to_image_data(response: &GeminiResponse) -> (r: Vec<Vec<u8>>)
    ensures
        r@.map_values(|v: Vec<u8>| v@) == candidates_image_bytes(response.candidates@),
{
    let cs = &response.candidates;
    let mut out: Vec<Vec<u8>> = Vec::new();
    let mut i: usize = 0;
    while i < cs.len()
        invariant
            i <= cs@.len(),
            out@.map_values(|v: Vec<u8>| v@) == candidates_image_bytes(cs@.subrange(0, i as int)),
        decreases cs.len() - i,
    {
        let mut more = candidate_image_data(&cs[i]);
        let ghost before = out@;
        let ghost added = more@;
        out.append(&mut more);
        proof {
            assert(cs@.subrange(0, i + 1).drop_last() =~= cs@.subrange(0, i as int));
            assert(out@.map_values(|v: Vec<u8>| v@) =~= before.map_values(|v: Vec<u8>| v@)
                + added.map_values(|v: Vec<u8>| v@));
        }
        i = i + 1;
    }
    assert(cs@.subrange(0, cs@.len() as int) =~= cs@);
    out
}

/// The texts of one candidate's parts, concatenated.
fn candidate_text(candidate: &Candidate) -> (r: String)
    ensures
        r@ == concat_texts(wire_parts_view(candidate.content.parts@)),
{
    let parts = &candidate.content.parts;
    let ghost pv = wire_parts_view(parts@);
    let mut full_text = String::new();
    let mut i: usize = 0;
    while i < parts.len()
        invariant
            i <= parts@.len(),
            pv == wire_parts_view(parts@),
            full_text@ == concat_texts(pv.subrange(0, i as int)),
        decreases parts.len() - i,
    {
        if let Some(t) = &parts[i].text {
            full_text.append(t.as_str());
        }
        proof {
            assert(pv.subrange(0, i + 1).drop_last() =~= pv.subrange(0, i as int));
        }
        i = i + 1;
    }
    assert(pv.subrange(0, pv.len() as int) =~= pv);
    full_text
}

/// The texts of the first candidate's parts, concatenated; no candidate is a
/// semantic error.
pub fn response_to_text_data(response: &GeminiResponse) -> (r: Result<String, ProviderError>)
    ensures
        response.candidates@.len() == 0 <==> r is Err,
        r matches Err(e) ==> e.kind == ErrorKind::Semantic,
        r matches Ok(t) ==> t@ == concat_texts(wire_parts_view(response.candidates@[0].content.parts@)),
{
    if response.candidates.len() == 0 {
        return Err(ProviderError::new(ErrorKind::Semantic, String::from_str("No candidates found")));
    }
    Ok(candidate_text(&response.candidates[0]))
}

/// The content parts of an answer whose first candidate has parts `ps`: its
/// images first, then all its text as one part.
pub open spec fn gemini_answer_parts(ps: Seq<PartWireView>) -> Seq<PartView> {
    part_images(ps).map_values(|d: Seq<char>| PartView::Image { data: d, path: None }).push(
        PartView::Text(concat_texts(ps)),
    )
}

/// What a message read from a generation answer is.
pub open spec fn gemini_answer_message(response: GeminiResponse, m: LLMMessage) -> bool {
    &&& m.role == LLMUserType::AI
    &&& parts_view(m.content@) == gemini_answer_parts(
        wire_parts_view(response.candidates@[0].content.parts@),
    )
    &&& (response.response_id matches Some(id) ==> m.id == id)
}

/// The message of a generation answer, read from its first candidate; no
/// candidate is a semantic error.
pub fn convert_gemini_response(response: GeminiResponse) -> (r: Result<LLMMessage, ProviderError>)
    ensures
        response.candidates@.len() == 0 <==> r is Err,
        r matches Err(e) ==> e.kind == ErrorKind::Semantic,
        r matches Ok(m) ==> gemini_answer_message(response, m),
{
    if response.candidates.len() == 0 {
        return Err(ProviderError::new(ErrorKind::Semantic, String::from_str("No candidates found")));
    }
    let first = &response.candidates[0];
    let images = candidate_base64_images(first);
    let ghost iv = images@.map_values(|s: String| s@);
    let mut data: Vec<LLMMessageType> = Vec::new();
    let mut i: usize = 0;
    while i < images.len()
        invariant
            i <= images@.len(),
            iv == images@.map_values(|s: String| s@),
            data@.len() == i,
            forall|j: int| 0 <= j < i ==> (#[trigger] data@[j])@ == (PartView::Image { data: iv[j], path: None }),
        decreases images.len() - i,
    {
        data.push(LLMMessageType::image_b64(images[i].clone()));
        i = i + 1;
    }
    assert(parts_view(data@) =~= iv.map_values(|d: Seq<char>| PartView::Image { data: d, path: None }));
    let ghost before = data@;
    data.push(LLMMessageType::text(candidate_text(first)));
    assert(parts_view(data@) =~= parts_view(before).push(parts_view(data@).last()));
    Ok(LLMMessage::from_role(response.response_id, LLMUserType::AI, data))
}

/// `s` with every leading copy of `p` removed.
pub open spec fn strip_all_prefix(s: Seq<char>, p: Seq<char>) -> Seq<char>
    decreases s.len(),
{
    if p.len() > 0 && has_prefix(s, p) {
        strip_all_prefix(s.subrange(p.len() as int, s.len() as int), p)
    } else {
        s
    }
}

/// The model id as it stands in an embedding URL: without `models/` prefixes.
pub open spec fn path_model(model: Seq<char>) -> Seq<char> {
    strip_all_prefix(model, "models/"@)
}

/// The model id as it stands in an embedding body: with one `models/` prefix.
pub open spec fn request_model(model: Seq<char>) -> Seq<char> {
    if has_prefix(model, "models/"@) {
        model
    } else {
        "models/"@ + model
    }
}

fn strip_model_prefixes(model: &str) -> (r: String)
    ensures
        r@ == path_model(model@),
{
    proof {
        reveal_strlit("models/");
    }
    let n = model.unicode_len();
    let mut start: usize = 0;
    assert(model@.subrange(0, n as int) =~= model@);
    loop
        invariant
            n == model@.len(),
            start <= n,
            path_model(model@) == strip_all_prefix(model@.subrange(start as int, n as int), "models/"@),
        ensures
            start <= n,
            path_model(model@) == model@.subrange(start as int, n as int),
        decreases n - start,
    {
        let ghost rest = model@.subrange(start as int, n as int);
        proof {
            reveal_strlit("models/");
        }
        if n - start < 7 {
            assert(!has_prefix(rest, "models/"@));
            assert(strip_all_prefix(rest, "models/"@) == rest);
            break;
        }
        let sub = model.substring_char(start, n);
        if !starts_with(sub, "models/") {
            assert(strip_all_prefix(rest, "models/"@) == rest);
            break;
        }
        assert(has_prefix(rest, "models/"@));
        assert(rest.subrange(7, rest.len() as int) =~= model@.subrange(start + 7, n as int));
        start = start + 7;
    }
    String::from_str(model.substring_char(start, n))
}

fn prefixed_model(model: &str) -> (r: String)
    ensures
        r@ == request_model(model@),
{
    if starts_with(model, "models/") {
        String::from_str(model)
    } else {
        let mut m = String::from_str("models/");
        m.append(model);
        m
    }
}

/// An embedding request for one text under `model`.
pub fn build_embed_content(text: &str, model: &str) -> (r: EmbedContentRequest)
    ensures
        r.model@ == model@,
        r.content.role is None,
        wire_parts_view(r.content.parts@) == seq![PartWireView { text: Some(text@), inline: None }],
{
    let mut parts: Vec<Part> = Vec::new();
    parts.push(Part { text: Some(String::from_str(text)), inline_data: None });
    assert(wire_parts_view(parts@) =~= seq![PartWireView { text: Some(text@), inline: None }]);
    EmbedContentRequest { model: String::from_str(model), content: Content { parts, role: None } }
}

/// One embedding request per text, in order, all under `model`.
pub fn build_batch_embed_contents(texts: &Vec<String>, model: &str) -> (r: Vec<EmbedContentRequest>)
    ensures
        r@.len() == texts@.len(),
        forall|i: int|
            0 <= i < texts@.len() ==> {
                &&& (#[trigger] r@[i]).model@ == model@
                &&& r@[i].content.role is None
                &&& wire_parts_view(r@[i].content.parts@) == seq![
                    PartWireView { text: Some(texts@[i]@), inline: None },
                ]
            },
{
    let mut out: Vec<EmbedContentRequest> = Vec::new();
    let mut i: usize = 0;
    while i < texts.len()
        invariant
            i <= texts@.len(),
            out@.len() == i,
            forall|j: int|
                0 <= j < i ==> {
                    &&& (#[trigger] out@[j]).model@ == model@
                    &&& out@[j].content.role is None
                    &&& wire_parts_view(out@[j].content.parts@) == seq![
                        PartWireView { text: Some(texts@[j]@), inline: None },
                    ]
                },
        decreases texts.len() - i,
    {
        out.push(build_embed_content(texts[i].as_str(), model));
        i = i + 1;
    }
    out
}

/// The endpoint for `n` texts: `embedContent` for one, else `batchEmbedContents`.
pub open spec fn embed_method(n: nat) -> EmbedMethod {
    if n == 1 {
        EmbedMethod::Single
    } else {
        EmbedMethod::Batch
    }
}

/// The action that ends the URL of an embedding endpoint.
pub open spec fn embed_action(m: EmbedMethod) -> Seq<char> {
    match m {
        EmbedMethod::Single => ":embedContent"@,
        EmbedMethod::Batch => ":batchEmbedContents"@,
    }
}

/// What the embedding request for `texts` is.
pub open spec fn is_embedding_request(q: GeminiEmbedRequest, client: LLMClient, texts: Seq<String>) -> bool {
    &&& q.method == embed_method(texts.len())
    &&& q.url@ == model_url(
        client.spec_endpoint(),
        path_model(client.spec_default_model()),
        embed_action(q.method),
    )
    &&& q.api_key@ == client.spec_api_key()
    &&& q.requests@.len() == texts.len()
    &&& forall|i: int|
        0 <= i < texts.len() ==> {
            &&& (#[trigger] q.requests@[i]).model@ == request_model(client.spec_default_model())
            &&& (#[trigger] q.requests@[i]).content.role is None
            &&& wire_parts_view(q.requests@[i].content.parts@) == seq![
                PartWireView { text: Some(texts[i]@), inline: None },
            ]
        }
}

/// The embedding request for `texts`: one per-text request for each text,
/// each under the `models/`-prefixed model, sent to the endpoint that
/// `embed_method` picks.
pub fn build_embedding_request(client: &LLMClient, texts: &Vec<String>) -> (r: GeminiEmbedRequest)
    ensures
        is_embedding_request(r, *client, texts@),
{
    let path = strip_model_prefixes(client.default_model());
    let model = prefixed_model(client.default_model());
    let method = if texts.len() == 1 {
        EmbedMethod::Single
    } else {
        EmbedMethod::Batch
    };
    let action = match method {
        EmbedMethod::Single => ":embedContent",
        EmbedMethod::Batch => ":batchEmbedContents",
    };
    GeminiEmbedRequest {
        url: make_model_url(client.endpoint(), path.as_str(), action),
        api_key: String::from_str(client.api_key()),
        method,
        requests: build_batch_embed_contents(texts, model.as_str()),
    }
}

/// The embedding of an `embedContent` answer; an answer without one (usage
/// metadata only) is a semantic error, not an empty success.
pub fn single_embedding<V>(response: GeminiEmbedResponse<V>) -> (r: Result<Vec<V>, ProviderError>)
    ensures
        response.embedding is None <==> r is Err,
        r matches Err(e) ==> e.kind == ErrorKind::Semantic,
        r matches Ok(v) ==> v@ == seq![response.embedding->0],
{
    match response.embedding {
        Some(e) => {
            let mut v: Vec<V> = Vec::new();
            v.push(e);
            assert(v@ =~= seq![e]);
            Ok(v)
        },
        None => Err(ProviderError::new(
            ErrorKind::Semantic,
            String::from_str("Gemini responded with usage metadata only: no embedding produced"),
        )),
    }
}

/// The embeddings of a `batchEmbedContents` answer; an answer without them
/// (usage metadata only) is a semantic error, not an empty success.
pub fn batch_embeddings<V>(response: GeminiBatchEmbedResponse<V>) -> (r: Result<Vec<V>, ProviderError>)
    ensures
        response.embeddings is None <==> r is Err,
        r matches Err(e) ==> e.kind == ErrorKind::Semantic,
        r matches Ok(v) ==> v == response.embeddings->0,
{
    match response.embeddings {
        Some(v) => Ok(v),
        None => Err(ProviderError::new(
            ErrorKind::Semantic,
            String::from_str("Gemini responded with usage metadata only: no embeddings produced"),
        )),
    }
}

} // verus!
