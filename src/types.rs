//! The canonical message model and the client configuration.
use vstd::prelude::*;
use crate::support::{current_timestamp_millis, lowercased, to_lower, trim_whitespace, trimmed};
use crate::support::detected_mime;
use crate::text::str_equals;

verus! {

/// The provider whose wire protocol a client speaks.
#[derive(Clone, Copy, Debug, PartialEq, Eq, Structural)]
pub enum LLMProvider {
    OpenAI,
    Anthropic,
    Gemini,
}

/// The kind of call a client makes.
#[derive(Clone, Copy, Debug, PartialEq, Eq, Structural)]
pub enum LLMType {
    Chat,
    Embedding,
}

/// One content part of a message: text, or an inline base64 image whose
/// optional source path only serves to guess its MIME type.
#[derive(Clone, Debug, PartialEq, Eq)]
pub enum LLMMessageType {
    TEXT(String),
    IMAGE { data_b64: String, file_path: Option<String> },
}

/// The canonical sender of a message.
#[derive(Clone, Copy, Debug, PartialEq, Eq, Structural)]
pub enum LLMUserType {
    Human,
    AI,
    System,
}

/// One conversational turn.
#[derive(Clone, Debug, PartialEq, Eq)]
pub struct LLMMessage {
    pub id: String,
    pub role: LLMUserType,
    pub content: Vec<LLMMessageType>,
    pub created_at: i64,
}

/// The mathematical value of a content part.
pub enum PartView {
    Text(Seq<char>),
    Image { data: Seq<char>, path: Option<Seq<char>> },
}

/// The view of an optional string.
pub open spec fn opt_view(o: Option<String>) -> Option<Seq<char>> {
    match o {
        Some(s) => Some(s@),
        None => None,
    }
}

impl View for LLMMessageType {
    type V = PartView;

    open spec fn view(&self) -> PartView {
        match self {
            LLMMessageType::TEXT(t) => PartView::Text(t@),
            LLMMessageType::IMAGE { data_b64, file_path } => PartView::Image {
                data: data_b64@,
                path: opt_view(*file_path),
            },
        }
    }
}

/// The views of a sequence of content parts.
pub open spec fn parts_view(parts: Seq<LLMMessageType>) -> Seq<PartView> {
    parts.map_values(|p: LLMMessageType| p@)
}

/// The texts of the text parts, in order, images skipped.
pub open spec fn text_segments(parts: Seq<PartView>) -> Seq<Seq<char>>
    decreases parts.len(),
{
    if parts.len() == 0 {
        Seq::empty()
    } else {
        text_segments(parts.drop_last()) + match parts.last() {
            PartView::Text(t) => seq![t],
            PartView::Image { .. } => Seq::empty(),
        }
    }
}

/// Every part is text (true of no parts).
pub open spec fn all_text(parts: Seq<PartView>) -> bool {
    forall|i: int| 0 <= i < parts.len() ==> parts[i] is Text
}

/// The MIME type sent for an image: guessed from its path when there is one,
/// else `default`.
pub open spec fn image_mime(path: Option<Seq<char>>, default: Seq<char>) -> Seq<char> {
    match path {
        Some(p) => detected_mime(p),
        None => default,
    }
}

/// The parts with a single empty text part standing in for none at all.
pub open spec fn nonempty_parts(parts: Seq<PartView>) -> Seq<PartView> {
    if parts.len() == 0 {
        seq![PartView::Text(Seq::empty())]
    } else {
        parts
    }
}

/// The texts of the text parts of `content`, in order.
pub fn collect_texts(content: &Vec<LLMMessageType>) -> (r: Vec<String>)
    ensures
        r@.map_values(|s: String| s@) == text_segments(parts_view(content@)),
{
    let mut out: Vec<String> = Vec::new();
    let mut i: usize = 0;
    while i < content.len()
        invariant
            i <= content@.len(),
            out@.map_values(|s: String| s@) == text_segments(parts_view(content@.subrange(0, i as int))),
        decreases content.len() - i,
    {
        let ghost before = out@;
        match &content[i] {
            LLMMessageType::TEXT(t) => out.push(t.clone()),
            LLMMessageType::IMAGE { .. } => {},
        }
        proof {
            let pv = parts_view(content@.subrange(0, i + 1));
            assert(pv.drop_last() =~= parts_view(content@.subrange(0, i as int)));
            assert(out@.map_values(|s: String| s@) =~= text_segments(pv));
        }
        i = i + 1;
    }
    assert(content@.subrange(0, content@.len() as int) =~= content@);
    out
}

/// Whether every part of `content` is text.
pub fn is_all_text(content: &Vec<LLMMessageType>) -> (r: bool)
    ensures
        r == all_text(parts_view(content@)),
{
    let mut i: usize = 0;
    while i < content.len()
        invariant
            i <= content@.len(),
            forall|j: int| 0 <= j < i ==> parts_view(content@)[j] is Text,
        decreases content.len() - i,
    {
        if let LLMMessageType::IMAGE { .. } = &content[i] {
            assert(!(parts_view(content@)[i as int] is Text));
            return false;
        }
        i = i + 1;
    }
    true
}

/// The MIME type sent for an image part with this source path.
pub fn image_mime_for(path: &Option<String>, default: &str) -> (r: String)
    ensures
        r@ == image_mime(opt_view(*path), default@),
{
    match path {
        Some(p) => crate::support::detect_mime_type(p.as_str()),
        None => String::from_str(default),
    }
}

/// The class of an adapter-level failure.
#[derive(Clone, Copy, Debug, PartialEq, Eq, Structural)]
pub enum ErrorKind {
    /// The request could not be delivered or its answer not read.
    Transport,
    /// The provider answered with a non-success status.
    Protocol,
    /// The answer was not of the expected JSON shape.
    Decode,
    /// The answer was well formed but unusable.
    Semantic,
}

/// An adapter-level failure: its class and a description of its cause.
#[derive(Clone, Debug, PartialEq, Eq)]
pub struct ProviderError {
    pub kind: ErrorKind,
    pub message: String,
}

/// The label that opens the description of an error of kind `k`.
pub open spec fn kind_label(k: ErrorKind) -> Seq<char> {
    match k {
        ErrorKind::Transport => "transport error: "@,
        ErrorKind::Protocol => "protocol error: "@,
        ErrorKind::Decode => "decode error: "@,
        ErrorKind::Semantic => "semantic error: "@,
    }
}

impl ProviderError {
    pub fn new(kind: ErrorKind, message: String) -> (r: Self)
        ensures
            r.kind == kind,
            r.message == message,
    {
        ProviderError { kind, message }
    }

    /// The kind's label followed by the message.
    pub fn describe(&self) -> (r: String)
        ensures
            r@ == kind_label(self.kind) + self.message@,
    {
        let label = match self.kind {
            ErrorKind::Transport => "transport error: ",
            ErrorKind::Protocol => "protocol error: ",
            ErrorKind::Decode => "decode error: ",
            ErrorKind::Semantic => "semantic error: ",
        };
        let mut out = String::from_str(label);
        out.append(self.message.as_str());
        out
    }
}

/// The role named by an already trimmed and lowercased key, if the synonym
/// table knows it.
pub open spec fn role_for_key(key: Seq<char>) -> Option<LLMUserType> {
    if key == "user"@ || key == "human"@ {
        Some(LLMUserType::Human)
    } else if key == "model"@ || key == "ai"@ || key == "assistant"@ {
        Some(LLMUserType::AI)
    } else if key == "system"@ {
        Some(LLMUserType::System)
    } else {
        None
    }
}

/// The key under which a free-text role is looked up.
pub open spec fn role_key(role: Seq<char>) -> Seq<char> {
    lowercased(trimmed(role))
}

/// The canonical role of a free-text role string; unknown strings give `Human`.
pub open spec fn canonical_role(role: Seq<char>) -> LLMUserType {
    match role_for_key(role_key(role)) {
        Some(r) => r,
        None => LLMUserType::Human,
    }
}

impl LLMMessageType {
    /// A text part.
    pub fn text(text: String) -> (r: Self)
        ensures
            r == LLMMessageType::TEXT(text),
    {
        LLMMessageType::TEXT(text)
    }

    /// An image part given by its base64 data, with no source path.
    pub fn image_b64(data_b64: String) -> (r: Self)
        ensures
            r == (LLMMessageType::IMAGE { data_b64, file_path: None }),
    {
        LLMMessageType::IMAGE { data_b64, file_path: None }
    }

    /// An image part for the file or URL at `path_str`, whose bytes the
    /// caller has loaded (`None` when loading failed, which leaves the data
    /// empty).
    pub fn image(path_str: String, loaded: Option<Vec<u8>>) -> (r: Self)
        requires
            loaded matches Some(b) ==> b@.len() <= usize::MAX / 2,
        ensures
            r == (LLMMessageType::IMAGE {
                data_b64: r->data_b64,
                file_path: Some(path_str),
            }),
            r->data_b64@ == match loaded {
                Some(b) => crate::support::base64_text(b@),
                None => Seq::empty(),
            },
    {
        let data_b64 = match loaded {
            Some(bytes) => crate::support::encode_byte_to_base64(bytes),
            None => String::new(),
        };
        LLMMessageType::IMAGE { data_b64, file_path: Some(path_str) }
    }
}

impl LLMUserType {
    /// Looks a free-text role up in the synonym table, ignoring surrounding
    /// whitespace and case: `user`/`human`, `model`/`ai`/`assistant`, `system`.
    pub fn from_str(role_str: &str) -> (r: Option<Self>)
        ensures
            r == role_for_key(role_key(role_str@)),
    {
        let t = trim_whitespace(role_str);
        let key = to_lower(t.as_str());
        let k = key.as_str();
        proof {
            reveal_strlit("user");
            reveal_strlit("human");
            reveal_strlit("model");
            reveal_strlit("ai");
            reveal_strlit("assistant");
            reveal_strlit("system");
        }
        if str_equals(k, "user") || str_equals(k, "human") {
            Some(LLMUserType::Human)
        } else if str_equals(k, "model") || str_equals(k, "ai") || str_equals(k, "assistant") {
            Some(LLMUserType::AI)
        } else if str_equals(k, "system") {
            Some(LLMUserType::System)
        } else {
            None
        }
    }
}

impl LLMMessage {
    /// A message with a canonical role given directly; without an `id` the
    /// current time in milliseconds serves as one.
    pub fn from_role(id: Option<String>, role: LLMUserType, content: Vec<LLMMessageType>) -> (r: Self)
        ensures
            id matches Some(s) ==> r.id == s,
            r.role == role,
            r.content == content,
    {
        let now = current_timestamp_millis();
        let id = match id {
            Some(s) => s,
            None => crate::text::decimal_text(now),
        };
        let created_at: i64 = if now <= i64::MAX as u64 {
            now as i64
        } else {
            i64::MAX
        };
        LLMMessage { id, role, content, created_at }
    }

    /// A message with the canonical role of `role`; without an `id` the
    /// current time in milliseconds serves as one.
    pub fn new(id: Option<String>, role: &str, content: Vec<LLMMessageType>) -> (r: Self)
        ensures
            id matches Some(s) ==> r.id == s,
            r.role == canonical_role(role@),
            r.content == content,
    {
        let role = match LLMUserType::from_str(role) {
            Some(r) => r,
            None => LLMUserType::Human,
        };
        LLMMessage::from_role(id, role, content)
    }
}

/// An immutable description of which provider, credentials, endpoint and
/// model a client uses, and for which kind of call.
#[derive(Clone, Debug)]
pub struct LLMClient {
    pub(crate) provider: LLMProvider,
    pub(crate) api_key: String,
    pub(crate) endpoint: String,
    pub(crate) default_model: String,
    pub(crate) llm_type: LLMType,
}

impl LLMClient {
    pub closed spec fn spec_provider(&self) -> LLMProvider {
        self.provider
    }

    pub closed spec fn spec_api_key(&self) -> Seq<char> {
        self.api_key@
    }

    pub closed spec fn spec_endpoint(&self) -> Seq<char> {
        self.endpoint@
    }

    pub closed spec fn spec_default_model(&self) -> Seq<char> {
        self.default_model@
    }

    pub closed spec fn spec_llm_type(&self) -> LLMType {
        self.llm_type
    }

    pub fn new(
        provider: LLMProvider,
        api_key: String,
        endpoint: String,
        default_model: String,
        llm_type: LLMType,
    ) -> (r: Self)
        ensures
            r.spec_provider() == provider,
            r.spec_api_key() == api_key@,
            r.spec_endpoint() == endpoint@,
            r.spec_default_model() == default_model@,
            r.spec_llm_type() == llm_type,
    {
        LLMClient { provider, api_key, endpoint, default_model, llm_type }
    }

    pub fn provider(&self) -> (r: LLMProvider)
        ensures
            r == self.spec_provider(),
    {
        self.provider
    }

    pub fn api_key(&self) -> (r: &str)
        ensures
            r@ == self.spec_api_key(),
    {
        self.api_key.as_str()
    }

    pub fn endpoint(&self) -> (r: &str)
        ensures
            r@ == self.spec_endpoint(),
    {
        self.endpoint.as_str()
    }

    pub fn default_model(&self) -> (r: &str)
        ensures
            r@ == self.spec_default_model(),
    {
        self.default_model.as_str()
    }

    pub fn llm_type(&self) -> (r: LLMType)
        ensures
            r == self.spec_llm_type(),
    {
        self.llm_type
    }
}

} // verus!
