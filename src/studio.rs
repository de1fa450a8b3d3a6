//! The image studio's own rules: file names, MIME types and extensions,
//! prompt assembly, the generation request and its answer, prompt
//! templates and the generation log.  Reading and writing files is left to
//! the caller.
use vstd::prelude::*;
use crate::gemini::{Candidate, GeminiResponse, PartWireView, wire_parts_view};
use crate::support::{base64_bytes, base64_decode, guess_mime, lowercased, mime_guess_of, to_lower, trim_whitespace, trimmed};
use crate::types::{opt_view, parts_view, LLMMessage, LLMMessageType, LLMUserType, PartView};
use crate::text::{
    after_first, decimal, decimal_text, before_first, has_char, has_char_pair, has_pair, has_prefix, join_lines,
    join_lines_exec, join_with, join_with_exec, starts_with, str_equals, text_after,
    text_before,
};

verus! {

/// The model used for image generation when the request names none.
pub const DEFAULT_IMAGE_MODEL: &'static str = "gemini-2.5-flash-image";

/// The endpoint used for image generation.
pub const DEFAULT_GEMINI_ENDPOINT: &'static str = "https://generativelanguage.googleapis.com/v1beta/models";

/// The most entries the generation log keeps.
pub const MAX_LOG_ENTRIES: usize = 50;

/// A request to generate an image.
pub struct GenerateImageRequest {
    pub api_key: Option<String>,
    pub model: Option<String>,
    pub system_prompt: Option<String>,
    pub image_prompt: String,
    pub reference_images: Vec<ReferenceImagePayload>,
    pub size: Option<String>,
    pub quality: Option<String>,
    pub style: Option<String>,
    pub user: Option<String>,
}

/// A reference image sent along with a generation request.
pub struct ReferenceImagePayload {
    pub mime_type: Option<String>,
    pub data_base64: String,
    pub slot: Option<String>,
    pub file_name: Option<String>,
}

/// The image found in a generation answer.
pub struct GeneratedImage {
    pub mime_type: String,
    pub base64: String,
    pub revised_prompt: Option<String>,
}

/// An image kept in the library.
pub struct StoredImage {
    pub id: String,
    pub name: String,
    pub size: u64,
    pub mime_type: String,
    pub base64: String,
}

/// An image to be added to the library.
pub struct UploadImagePayload {
    pub file_name: String,
    pub mime_type: Option<String>,
    pub data_base64: String,
}

/// A prompt template to be saved.
pub struct SavePromptsPayload {
    pub id: Option<String>,
    pub name: String,
    pub system_prompt: String,
    pub user_prompt: String,
}

/// The answer to a generation request: the stored image and any revised prompt.
pub struct GeneratedImageResponsePayload {
    pub image: StoredImage,
    pub revised_prompt: Option<String>,
}

/// One entry of the generation log.
pub struct GenerationLogEntry {
    pub timestamp: u64,
    pub prompt: String,
    pub system_prompt: Option<String>,
    pub reference_images: Vec<String>,
    pub output_image: String,
}

/// A saved pair of system and user prompts.
pub struct PromptTemplates {
    pub id: String,
    pub name: String,
    pub system_prompt: String,
    pub user_prompt: String,
    pub date_created: u64,
}

/// A file name that cannot leave its directory: not empty, without `/`,
/// `\`, `..` or NUL.
pub open spec fn safe_file_name(s: Seq<char>) -> bool {
    &&& s.len() > 0
    &&& !s.contains('/')
    &&& !s.contains('\\')
    &&& !has_pair(s, '.', '.')
    &&& !s.contains('\0')
}

/// Whether `file_name` is a safe file name.
pub fn is_safe_file_name(file_name: &str) -> (r: bool)
    ensures
        r == safe_file_name(file_name@),
{
    file_name.unicode_len() > 0 && !has_char(file_name, '/') && !has_char(file_name, '\\')
        && !has_char_pair(file_name, '.', '.') && !has_char(file_name, '\0')
}

/// The trimmed file name, if it is safe.
pub fn sanitize_file_name(file_name: &str) -> (r: Option<String>)
    ensures
        safe_file_name(trimmed(file_name@)) <==> r is Some,
        r matches Some(s) ==> s@ == trimmed(file_name@),
{
    let t = trim_whitespace(file_name);
    if is_safe_file_name(t.as_str()) {
        Some(t)
    } else {
        None
    }
}

/// The extension for a MIME type named in the fixed table, if any.
pub open spec fn known_extension(mime: Seq<char>) -> Option<Seq<char>> {
    if mime == "image/png"@ {
        Some("png"@)
    } else if mime == "image/jpeg"@ || mime == "image/jpg"@ {
        Some("jpg"@)
    } else if mime == "image/webp"@ {
        Some("webp"@)
    } else if mime == "image/gif"@ {
        Some("gif"@)
    } else if mime == "image/bmp"@ {
        Some("bmp"@)
    } else if mime == "image/tiff"@ {
        Some("tiff"@)
    } else {
        None
    }
}

/// The file extension for a MIME type: from the fixed table, else the
/// subtype (what lies between the first and any second `/`), after trimming
/// and lowercasing; none when there is no `/`.
pub open spec fn extension_for_mime(mime: Seq<char>) -> Option<Seq<char>> {
    let m = lowercased(trimmed(mime));
    match known_extension(m) {
        Some(e) => Some(e),
        None => match after_first(m, '/') {
            Some(rest) => Some(before_first(rest, '/')),
            None => None,
        },
    }
}

/// The file extension for a MIME type, as `extension_for_mime` describes.
pub fn default_extension_for_mime(mime_type: &str) -> (r: Option<String>)
    ensures
        match r {
            Some(e) => extension_for_mime(mime_type@) == Some(e@),
            None => extension_for_mime(mime_type@) is None,
        },
{
    proof {
        reveal_strlit("image/png");
        reveal_strlit("image/jpeg");
        reveal_strlit("image/jpg");
        reveal_strlit("image/webp");
        reveal_strlit("image/gif");
        reveal_strlit("image/bmp");
        reveal_strlit("image/tiff");
    }
    let t = trim_whitespace(mime_type);
    let lower = to_lower(t.as_str());
    let m = lower.as_str();
    if str_equals(m, "image/png") {
        Some(String::from_str("png"))
    } else if str_equals(m, "image/jpeg") || str_equals(m, "image/jpg") {
        Some(String::from_str("jpg"))
    } else if str_equals(m, "image/webp") {
        Some(String::from_str("webp"))
    } else if str_equals(m, "image/gif") {
        Some(String::from_str("gif"))
    } else if str_equals(m, "image/bmp") {
        Some(String::from_str("bmp"))
    } else if str_equals(m, "image/tiff") {
        Some(String::from_str("tiff"))
    } else {
        match text_after(m, '/') {
            Some(rest) => Some(text_before(rest.as_str(), '/')),
            None => None,
        }
    }
}

/// The MIME type of a stored file: the trimmed candidate when it is not
/// empty, else the type guessed from the path, else `application/octet-stream`.
pub open spec fn resolved_mime(candidate: Option<Seq<char>>, path: Seq<char>) -> Seq<char> {
    match candidate {
        Some(c) if trimmed(c).len() > 0 => trimmed(c),
        _ => match mime_guess_of(path) {
            Some(m) => m,
            None => "application/octet-stream"@,
        },
    }
}

/// The MIME type of a stored file, as `resolved_mime` describes.
pub fn resolve_mime_type(candidate: Option<String>, path: &str) -> (r: String)
    ensures
        r@ == resolved_mime(crate::types::opt_view(candidate), path@),
{
    if let Some(value) = &candidate {
        let t = trim_whitespace(value.as_str());
        if t.unicode_len() > 0 {
            return t;
        }
    }
    match guess_mime(path) {
        Some(m) => m,
        None => String::from_str("application/octet-stream"),
    }
}

/// The detail line for an optional field: `label` and the trimmed value,
/// when the value is present and not blank.
pub open spec fn detail(value: Option<Seq<char>>, label: Seq<char>) -> Seq<Seq<char>> {
    match value {
        Some(v) => if trimmed(v).len() > 0 {
            seq![label + trimmed(v)]
        } else {
            Seq::empty()
        },
        None => Seq::empty(),
    }
}

/// The detail lines of a generation request: style, quality, size, user.
pub open spec fn prompt_details(p: GenerateImageRequest) -> Seq<Seq<char>> {
    detail(crate::types::opt_view(p.style), "Preferred style: "@)
        + detail(crate::types::opt_view(p.quality), "Desired quality: "@)
        + detail(crate::types::opt_view(p.size), "Target dimensions or aspect ratio: "@)
        + detail(crate::types::opt_view(p.user), "Requested by user: "@)
}

/// The sections of the user prompt: the trimmed image prompt when not blank,
/// then the detail lines joined by newlines when there are any.
pub open spec fn prompt_sections(p: GenerateImageRequest) -> Seq<Seq<char>> {
    let head = trimmed(p.image_prompt@);
    (if head.len() > 0 {
        seq![head]
    } else {
        Seq::empty()
    }) + (if prompt_details(p).len() > 0 {
        seq![join_lines(prompt_details(p))]
    } else {
        Seq::empty()
    })
}

/// The user prompt of a generation request: its sections separated by a
/// blank line.
pub open spec fn user_prompt(p: GenerateImageRequest) -> Seq<char> {
    join_with(prompt_sections(p), "\n\n"@)
}

fn push_detail(details: &mut Vec<String>, value: &Option<String>, label: &str)
    ensures
        final(details)@.map_values(|s: String| s@) == old(details)@.map_values(|s: String| s@)
            + detail(crate::types::opt_view(*value), label@),
{
    let ghost before = details@;
    if let Some(v) = value {
        let t = trim_whitespace(v.as_str());
        if t.unicode_len() > 0 {
            let mut line = String::from_str(label);
            line.append(t.as_str());
            details.push(line);
            assert(details@.map_values(|s: String| s@) =~= before.map_values(|s: String| s@)
                + detail(crate::types::opt_view(*value), label@));
            return;
        }
    }
    assert(details@.map_values(|s: String| s@) =~= before.map_values(|s: String| s@)
        + detail(crate::types::opt_view(*value), label@));
}

/// The user prompt of a generation request, as `user_prompt` describes.
pub fn build_user_prompt(payload: &GenerateImageRequest) -> (r: String)
    ensures
        r@ == user_prompt(*payload),
{
    let mut sections: Vec<String> = Vec::new();
    let head = trim_whitespace(payload.image_prompt.as_str());
    if head.unicode_len() > 0 {
        sections.push(head);
    }
    let mut details: Vec<String> = Vec::new();
    push_detail(&mut details, &payload.style, "Preferred style: ");
    push_detail(&mut details, &payload.quality, "Desired quality: ");
    push_detail(&mut details, &payload.size, "Target dimensions or aspect ratio: ");
    push_detail(&mut details, &payload.user, "Requested by user: ");
    assert(details@.map_values(|s: String| s@) =~= prompt_details(*payload));
    let ghost before = sections@;
    if details.len() > 0 {
        sections.push(join_lines_exec(&details));
    }
    assert(sections@.map_values(|s: String| s@) =~= prompt_sections(*payload));
    join_with_exec(&sections, "\n\n")
}

/// The mathematical value of a generated image.
pub struct GeneratedView {
    pub mime_type: Seq<char>,
    pub base64: Seq<char>,
    pub revised_prompt: Option<Seq<char>>,
}

impl View for GeneratedImage {
    type V = GeneratedView;

    open spec fn view(&self) -> GeneratedView {
        GeneratedView {
            mime_type: self.mime_type@,
            base64: self.base64@,
            revised_prompt: crate::types::opt_view(self.revised_prompt),
        }
    }
}

/// The first non-blank text seen so far, trimmed.
pub open spec fn next_first_text(first: Option<Seq<char>>, text: Option<Seq<char>>) -> Option<Seq<char>> {
    match (first, text) {
        (None, Some(t)) => if trimmed(t).len() > 0 {
            Some(trimmed(t))
        } else {
            None
        },
        _ => first,
    }
}

/// The first image among parts whose trimmed data is not empty, with its
/// trimmed MIME type (`image/png` when blank) and the first non-blank text
/// before it.  A part that carries blank inline data is skipped whole.
pub open spec fn scan_parts(ps: Seq<PartWireView>, first: Option<Seq<char>>) -> Option<GeneratedView>
    decreases ps.len(),
{
    if ps.len() == 0 {
        None
    } else {
        match ps[0].inline {
            Some((m, d)) => if trimmed(d).len() > 0 {
                Some(
                    GeneratedView {
                        mime_type: if trimmed(m).len() > 0 {
                            trimmed(m)
                        } else {
                            "image/png"@
                        },
                        base64: trimmed(d),
                        revised_prompt: first,
                    },
                )
            } else {
                scan_parts(ps.drop_first(), first)
            },
            None => scan_parts(ps.drop_first(), next_first_text(first, ps[0].text)),
        }
    }
}

/// The first image of the first candidate that has one.
pub open spec fn scan_candidates(cs: Seq<Candidate>) -> Option<GeneratedView>
    decreases cs.len(),
{
    if cs.len() == 0 {
        None
    } else {
        match scan_parts(wire_parts_view(cs[0].content.parts@), None) {
            Some(g) => Some(g),
            None => scan_candidates(cs.drop_first()),
        }
    }
}

fn scan_candidate(candidate: &Candidate) -> (r: Option<GeneratedImage>)
    ensures
        match r {
            Some(g) => scan_parts(wire_parts_view(candidate.content.parts@), None) == Some(g@),
            None => scan_parts(wire_parts_view(candidate.content.parts@), None) is None,
        },
{
    let parts = &candidate.content.parts;
    let ghost pv = wire_parts_view(parts@);
    let mut first_text: Option<String> = None;
    let mut i: usize = 0;
    assert(pv.subrange(0, pv.len() as int) =~= pv);
    while i < parts.len()
        invariant
            i <= parts@.len(),
            pv == wire_parts_view(parts@),
            pv == wire_parts_view(candidate.content.parts@),
            scan_parts(pv, None) == scan_parts(
                pv.subrange(i as int, pv.len() as int),
                crate::types::opt_view(first_text),
            ),
        decreases parts.len() - i,
    {
        let ghost rest = pv.subrange(i as int, pv.len() as int);
        assert(rest.drop_first() =~= pv.subrange(i + 1, pv.len() as int));
        assert(rest[0] == parts@[i as int]@);
        let part = &parts[i];
        if let Some(inline) = &part.inline_data {
            let data = trim_whitespace(inline.data.as_str());
            if data.unicode_len() > 0 {
                let m = trim_whitespace(inline.mime_type.as_str());
                let mime_type = if m.unicode_len() > 0 {
                    m
                } else {
                    String::from_str("image/png")
                };
                return Some(GeneratedImage { mime_type, base64: data, revised_prompt: first_text });
            }
        } else {
            if let Some(text) = &part.text {
                let t = trim_whitespace(text.as_str());
                if t.unicode_len() > 0 && first_text.is_none() {
                    first_text = Some(t);
                }
            }
        }
        i = i + 1;
    }
    None
}

/// The image of a generation answer, as `scan_candidates` finds it; an
/// answer without one is an error.
pub fn extract_generated_image(response: GeminiResponse) -> (r: Result<GeneratedImage, String>)
    ensures
        match r {
            Ok(g) => scan_candidates(response.candidates@) == Some(g@),
            Err(_) => scan_candidates(response.candidates@) is None,
        },
{
    let cs = &response.candidates;
    let mut i: usize = 0;
    assert(cs@.subrange(0, cs@.len() as int) =~= cs@);
    while i < cs.len()
        invariant
            i <= cs@.len(),
            cs@ == response.candidates@,
            scan_candidates(cs@) == scan_candidates(cs@.subrange(i as int, cs@.len() as int)),
        decreases cs.len() - i,
    {
        let ghost rest = cs@.subrange(i as int, cs@.len() as int);
        assert(rest.drop_first() =~= cs@.subrange(i + 1, cs@.len() as int));
        assert(rest[0] == cs@[i as int]);
        if let Some(g) = scan_candidate(&cs[i]) {
            return Ok(g);
        }
        i = i + 1;
    }
    Err(String::from_str("Provider did not return an image payload."))
}

/// The trimmed value, when present and not blank.
pub open spec fn nonblank(o: Option<Seq<char>>) -> Option<Seq<char>> {
    match o {
        Some(v) => if trimmed(v).len() > 0 {
            Some(trimmed(v))
        } else {
            None
        },
        None => None,
    }
}

fn nonblank_exec(o: &Option<String>) -> (r: Option<String>)
    ensures
        opt_view(r) == nonblank(opt_view(*o)),
{
    match o {
        Some(v) => {
            let t = trim_whitespace(v.as_str());
            if t.unicode_len() > 0 {
                Some(t)
            } else {
                None
            }
        },
        None => None,
    }
}

/// The image part for the reference image at position `index`: its trimmed
/// data, and a pseudo path (slot name plus the MIME type's extension) that
/// only serves to declare the MIME type.  Blank data gives no part.
pub open spec fn reference_part(r: ReferenceImagePayload, index: nat) -> Option<PartView> {
    let data = trimmed(r.data_base64@);
    if data.len() == 0 {
        None
    } else {
        let mime = match nonblank(opt_view(r.mime_type)) {
            Some(m) => m,
            None => "image/png"@,
        };
        let ext = match extension_for_mime(mime) {
            Some(e) => e,
            None => "bin"@,
        };
        let slot = match nonblank(opt_view(r.slot)) {
            Some(s) => s,
            None => "reference_"@ + decimal(index),
        };
        let path = if ext.len() == 0 {
            slot
        } else {
            slot + "."@ + ext
        };
        Some(PartView::Image { data, path: Some(path) })
    }
}

/// The image parts for the reference images, in order.
pub open spec fn reference_parts(refs: Seq<ReferenceImagePayload>) -> Seq<PartView>
    decreases refs.len(),
{
    if refs.len() == 0 {
        Seq::empty()
    } else {
        reference_parts(refs.drop_last()) + match reference_part(refs.last(), (refs.len() - 1) as nat) {
            Some(p) => seq![p],
            None => Seq::empty(),
        }
    }
}

fn convert_reference(r: &ReferenceImagePayload, index: usize) -> (out: Option<LLMMessageType>)
    ensures
        match out {
            Some(p) => reference_part(*r, index as nat) == Some(p@),
            None => reference_part(*r, index as nat) is None,
        },
{
    let data = trim_whitespace(r.data_base64.as_str());
    if data.unicode_len() == 0 {
        return None;
    }
    let mime = match nonblank_exec(&r.mime_type) {
        Some(m) => m,
        None => String::from_str("image/png"),
    };
    let ext = match default_extension_for_mime(mime.as_str()) {
        Some(e) => e,
        None => String::from_str("bin"),
    };
    let mut slot = match nonblank_exec(&r.slot) {
        Some(s) => s,
        None => {
            let mut s = String::from_str("reference_");
            let digits = decimal_text(index as u64);
            s.append(digits.as_str());
            s
        },
    };
    if ext.unicode_len() > 0 {
        slot.append(".");
        slot.append(ext.as_str());
    }
    Some(LLMMessageType::IMAGE { data_b64: data, file_path: Some(slot) })
}

/// What a generation needs once the request is checked: the key, the model
/// id without a `models/` prefix, and the messages to send.
pub struct GenerationPlan {
    pub api_key: String,
    pub model: String,
    pub messages: Vec<LLMMessage>,
}

/// The model id with one leading `models/` removed.
pub open spec fn strip_models_once(m: Seq<char>) -> Seq<char> {
    if has_prefix(m, "models/"@) {
        m.subrange(7, m.len() as int)
    } else {
        m
    }
}

/// The content of the user's message: the reference images, then the user
/// prompt when it is not blank.
pub open spec fn generation_content(p: GenerateImageRequest) -> Seq<PartView> {
    reference_parts(p.reference_images@) + if trimmed(user_prompt(p)).len() > 0 {
        seq![PartView::Text(user_prompt(p))]
    } else {
        Seq::empty()
    }
}

/// Checks a generation request and prepares what is sent.  Errors, in the
/// order they are checked: a blank image prompt, a missing or blank key, and
/// nothing to send.  The messages are a human message with the trimmed
/// system prompt, when there is one, then a human message with the content
/// `generation_content` describes.
pub fn plan_image_generation(payload: &GenerateImageRequest) -> (r: Result<GenerationPlan, String>)
    ensures
        trimmed(payload.image_prompt@).len() == 0 ==> (r matches Err(e) && e@ == "Image prompt cannot be empty"@),
        trimmed(payload.image_prompt@).len() > 0 && nonblank(opt_view(payload.api_key)) is None
            ==> (r matches Err(e) && e@ == "API key is required to generate images."@),
        trimmed(payload.image_prompt@).len() > 0 && nonblank(opt_view(payload.api_key)) is Some
            && generation_content(*payload).len() == 0 ==> (r matches Err(e) && e@
            == "A prompt or reference image is required to generate content."@),
        r matches Ok(plan) ==> {
            &&& trimmed(payload.image_prompt@).len() > 0
            &&& generation_content(*payload).len() > 0
            &&& nonblank(opt_view(payload.api_key)) == Some(plan.api_key@)
            &&& plan.model@ == strip_models_once(
                match nonblank(opt_view(payload.model)) {
                    Some(m) => m,
                    None => "gemini-2.5-flash-image"@,
                },
            )
            &&& plan.messages@.len() >= 1
            &&& plan.messages@.last().role == LLMUserType::Human
            &&& parts_view(plan.messages@.last().content@) == generation_content(*payload)
            &&& match nonblank(opt_view(payload.system_prompt)) {
                Some(sys) => plan.messages@.len() == 2 && plan.messages@[0].role == LLMUserType::Human
                    && parts_view(plan.messages@[0].content@) == seq![PartView::Text(sys)],
                None => plan.messages@.len() == 1,
            }
        },
{
    let prompt = trim_whitespace(payload.image_prompt.as_str());
    if prompt.unicode_len() == 0 {
        return Err(String::from_str("Image prompt cannot be empty"));
    }
    let api_key = match nonblank_exec(&payload.api_key) {
        Some(k) => k,
        None => return Err(String::from_str("API key is required to generate images.")),
    };
    let model_name = match nonblank_exec(&payload.model) {
        Some(m) => m,
        None => String::from_str(DEFAULT_IMAGE_MODEL),
    };
    proof {
        reveal_strlit("models/");
    }
    let model = if starts_with(model_name.as_str(), "models/") {
        String::from_str(model_name.as_str().substring_char(7, model_name.unicode_len()))
    } else {
        model_name
    };
    let mut messages: Vec<LLMMessage> = Vec::new();
    if let Some(sys) = nonblank_exec(&payload.system_prompt) {
        let mut content: Vec<LLMMessageType> = Vec::new();
        content.push(LLMMessageType::text(sys));
        assert(parts_view(content@) =~= seq![content@[0]@]);
        messages.push(LLMMessage::from_role(None, LLMUserType::Human, content));
    }
    let refs = &payload.reference_images;
    let mut user_content: Vec<LLMMessageType> = Vec::new();
    let mut i: usize = 0;
    while i < refs.len()
        invariant
            i <= refs@.len(),
            refs@ == payload.reference_images@,
            parts_view(user_content@) == reference_parts(refs@.subrange(0, i as int)),
        decreases refs.len() - i,
    {
        let ghost before = user_content@;
        if let Some(part) = convert_reference(&refs[i], i) {
            user_content.push(part);
        }
        proof {
            let next = refs@.subrange(0, i + 1);
            assert(next.drop_last() =~= refs@.subrange(0, i as int));
            assert(parts_view(user_content@) =~= reference_parts(next));
        }
        i = i + 1;
    }
    assert(refs@.subrange(0, refs@.len() as int) =~= refs@);
    let user_prompt_text = build_user_prompt(payload);
    let t = trim_whitespace(user_prompt_text.as_str());
    let ghost before = user_content@;
    if t.unicode_len() > 0 {
        user_content.push(LLMMessageType::text(user_prompt_text));
    }
    assert(parts_view(user_content@) =~= generation_content(*payload));
    if user_content.len() == 0 {
        return Err(String::from_str("A prompt or reference image is required to generate content."));
    }
    messages.push(LLMMessage::from_role(None, LLMUserType::Human, user_content));
    Ok(GenerationPlan { api_key, model, messages })
}

impl PromptTemplates {
    /// A template created now (in seconds since the epoch); without an `id`
    /// the decimal creation time serves as one.
    pub fn new(id: Option<String>, name: String, system_prompt: String, user_prompt: String) -> (r: Self)
        ensures
            match id {
                Some(s) => r.id == s,
                None => r.id@ == decimal(r.date_created as nat),
            },
            r.name == name,
            r.system_prompt == system_prompt,
            r.user_prompt == user_prompt,
    {
        let now = crate::support::current_timestamp_millis() / 1000;
        let id = match id {
            Some(s) => s,
            None => decimal_text(now),
        };
        PromptTemplates { id, name, system_prompt, user_prompt, date_created: now }
    }
}

/// The mathematical value of a prompt template.
pub struct TemplateView {
    pub id: Seq<char>,
    pub name: Seq<char>,
    pub system_prompt: Seq<char>,
    pub user_prompt: Seq<char>,
    pub date_created: u64,
}

impl View for PromptTemplates {
    type V = TemplateView;

    open spec fn view(&self) -> TemplateView {
        TemplateView {
            id: self.id@,
            name: self.name@,
            system_prompt: self.system_prompt@,
            user_prompt: self.user_prompt@,
            date_created: self.date_created,
        }
    }
}

/// The views of a sequence of templates.
pub open spec fn templates_view(ts: Seq<PromptTemplates>) -> Seq<TemplateView> {
    ts.map_values(|t: PromptTemplates| t@)
}

/// `k` is the first position whose id is `id`.
pub open spec fn first_with_id(ts: Seq<PromptTemplates>, id: Seq<char>, k: int) -> bool {
    &&& 0 <= k < ts.len()
    &&& ts[k].id@ == id
    &&& forall|j: int| 0 <= j < k ==> (#[trigger] ts[j]).id@ != id
}

/// `k` is the first position whose name is `name`.
pub open spec fn first_with_name(ts: Seq<PromptTemplates>, name: Seq<char>, k: int) -> bool {
    &&& 0 <= k < ts.len()
    &&& ts[k].name@ == name
    &&& forall|j: int| 0 <= j < k ==> (#[trigger] ts[j]).name@ != name
}

fn copy_template(t: &PromptTemplates) -> (r: PromptTemplates)
    ensures
        r@ == t@,
{
    PromptTemplates {
        id: t.id.clone(),
        name: t.name.clone(),
        system_prompt: t.system_prompt.clone(),
        user_prompt: t.user_prompt.clone(),
        date_created: t.date_created,
    }
}

fn position_by_id(ts: &Vec<PromptTemplates>, id: &str) -> (r: Option<usize>)
    ensures
        match r {
            Some(k) => first_with_id(ts@, id@, k as int),
            None => forall|j: int| 0 <= j < ts@.len() ==> (#[trigger] ts@[j]).id@ != id@,
        },
{
    let mut i: usize = 0;
    while i < ts.len()
        invariant
            i <= ts@.len(),
            forall|j: int| 0 <= j < i ==> (#[trigger] ts@[j]).id@ != id@,
        decreases ts.len() - i,
    {
        if str_equals(ts[i].id.as_str(), id) {
            return Some(i);
        }
        i = i + 1;
    }
    None
}

fn position_by_name(ts: &Vec<PromptTemplates>, name: &str) -> (r: Option<usize>)
    ensures
        match r {
            Some(k) => first_with_name(ts@, name@, k as int),
            None => forall|j: int| 0 <= j < ts@.len() ==> (#[trigger] ts@[j]).name@ != name@,
        },
{
    let mut i: usize = 0;
    while i < ts.len()
        invariant
            i <= ts@.len(),
            forall|j: int| 0 <= j < i ==> (#[trigger] ts@[j]).name@ != name@,
        decreases ts.len() - i,
    {
        if str_equals(ts[i].name.as_str(), name) {
            return Some(i);
        }
        i = i + 1;
    }
    None
}

/// The first template named `name`; none is an error that names it.
pub fn find_template_by_name(templates: &Vec<PromptTemplates>, name: &str) -> (r: Result<PromptTemplates, String>)
    ensures
        match r {
            Ok(t) => exists|k: int| first_with_name(templates@, name@, k) && t@ == templates@[k]@,
            Err(e) => (forall|j: int| 0 <= j < templates@.len() ==> (#[trigger] templates@[j]).name@ != name@)
                && e@ == "Prompt template '"@ + name@ + "' not found."@,
        },
{
    match position_by_name(templates, name) {
        Some(k) => Ok(copy_template(&templates[k])),
        None => {
            let mut e = String::from_str("Prompt template '");
            e.append(name);
            e.append("' not found.");
            Err(e)
        },
    }
}

/// A text that is the id of no template: the first of `now`, `now + 1`, ...
/// `now + n` (in decimal) that is free, where `n` is the number of
/// templates; should all of those be taken, a text longer than every id.
pub fn generate_unique_id(existing: &Vec<PromptTemplates>, now: u64) -> (r: String)
    ensures
        forall|j: int| 0 <= j < existing@.len() ==> (#[trigger] existing@[j]).id@ != r@,
{
    let n = existing.len();
    let mut counter: usize = 0;
    loop
        invariant
            n == existing@.len(),
            counter <= n,
        decreases n - counter,
    {
        if now <= u64::MAX - counter as u64 {
            let candidate = decimal_text(now + counter as u64);
            if position_by_id(existing, candidate.as_str()).is_none() {
                return candidate;
            }
        }
        if counter == n {
            break;
        }
        counter = counter + 1;
    }
    proof {
        reveal_strlit("0");
    }
    let mut longest = String::from_str("0");
    let mut i: usize = 0;
    while i < existing.len()
        invariant
            i <= existing@.len(),
            longest@.len() > 0,
            forall|j: int| 0 <= j < i ==> (#[trigger] existing@[j]).id@.len() < longest@.len(),
        decreases existing.len() - i,
    {
        proof {
            reveal_strlit("0");
        }
        if existing[i].id.unicode_len() >= longest.unicode_len() {
            longest = existing[i].id.clone();
            longest.append("0");
        }
        i = i + 1;
    }
    longest
}

/// What saving `p` does to the templates `ts` and what it returns (`r`),
/// given the template `fresh` that would be created now:
/// - with an id that some template has, the first such one gets the new
///   name and prompts;
/// - without an id, the first template with the same name gets the new
///   prompts;
/// - else `fresh` (with an id that no template has) is appended.
pub open spec fn saved(
    ts: Seq<PromptTemplates>,
    p: SavePromptsPayload,
    after: Seq<PromptTemplates>,
    r: PromptTemplates,
) -> bool {
    let by_id = match p.id {
        Some(id) => exists|k: int| first_with_id(ts, id@, k),
        None => false,
    };
    let by_name = p.id is None && exists|k: int| first_with_name(ts, p.name@, k);
    if by_id {
        exists|k: int|
            first_with_id(ts, p.id->0@, k) && r@ == (TemplateView {
                name: p.name@,
                system_prompt: p.system_prompt@,
                user_prompt: p.user_prompt@,
                ..ts[k]@
            }) && templates_view(after) == templates_view(ts).update(k, r@)
    } else if by_name {
        exists|k: int|
            first_with_name(ts, p.name@, k) && r@ == (TemplateView {
                system_prompt: p.system_prompt@,
                user_prompt: p.user_prompt@,
                ..ts[k]@
            }) && templates_view(after) == templates_view(ts).update(k, r@)
    } else {
        &&& r.name@ == p.name@
        &&& r.system_prompt@ == p.system_prompt@
        &&& r.user_prompt@ == p.user_prompt@
        &&& (p.id matches Some(id) ==> r.id@ == id@)
        &&& forall|j: int| 0 <= j < ts.len() ==> (#[trigger] ts[j]).id@ != r.id@
        &&& templates_view(after) == templates_view(ts).push(r@)
    }
}

/// Saves a template as `saved` describes and returns it.
pub fn save_template(templates: &mut Vec<PromptTemplates>, payload: SavePromptsPayload) -> (r: PromptTemplates)
    ensures
        saved(old(templates)@, payload, final(templates)@, r),
{
    let ghost ts = templates@;
    if let Some(existing_id) = &payload.id {
        if let Some(k) = position_by_id(templates, existing_id.as_str()) {
            let old_t = copy_template(&templates[k]);
            let updated = PromptTemplates {
                id: old_t.id,
                name: payload.name.clone(),
                system_prompt: payload.system_prompt.clone(),
                user_prompt: payload.user_prompt.clone(),
                date_created: old_t.date_created,
            };
            let result = copy_template(&updated);
            templates.set(k, updated);
            assert(templates_view(templates@) =~= templates_view(ts).update(k as int, result@));
            return result;
        }
    }
    if payload.id.is_none() {
        if let Some(k) = position_by_name(templates, payload.name.as_str()) {
            let old_t = copy_template(&templates[k]);
            let updated = PromptTemplates {
                id: old_t.id,
                name: old_t.name,
                system_prompt: payload.system_prompt.clone(),
                user_prompt: payload.user_prompt.clone(),
                date_created: old_t.date_created,
            };
            let result = copy_template(&updated);
            templates.set(k, updated);
            assert(templates_view(templates@) =~= templates_view(ts).update(k as int, result@));
            return result;
        }
    }
    let mut template = PromptTemplates::new(
        payload.id,
        payload.name,
        payload.system_prompt,
        payload.user_prompt,
    );
    if position_by_id(templates, template.id.as_str()).is_some() {
        template.id = generate_unique_id(templates, template.date_created);
    }
    let result = copy_template(&template);
    templates.push(template);
    assert(templates_view(templates@) =~= templates_view(ts).push(result@));
    result
}

/// The templates without those whose id is `id`, in order.
pub open spec fn without_id(ts: Seq<PromptTemplates>, id: Seq<char>) -> Seq<TemplateView>
    decreases ts.len(),
{
    if ts.len() == 0 {
        Seq::empty()
    } else if ts.last().id@ == id {
        without_id(ts.drop_last(), id)
    } else {
        without_id(ts.drop_last(), id).push(ts.last()@)
    }
}

/// Removes every template whose id is `id`; none such is an error that
/// names the id, and leaves the templates as they were.
pub fn remove_templates_by_id(templates: Vec<PromptTemplates>, id: &str) -> (r: Result<Vec<PromptTemplates>, String>)
    ensures
        (forall|j: int| 0 <= j < templates@.len() ==> (#[trigger] templates@[j]).id@ != id@)
            <==> r is Err,
        r matches Ok(kept) ==> templates_view(kept@) == without_id(templates@, id@),
        r matches Err(e) ==> e@ == "Prompt template with id '"@ + id@ + "' not found."@,
{
    let mut kept: Vec<PromptTemplates> = Vec::new();
    let mut removed = false;
    let mut i: usize = 0;
    while i < templates.len()
        invariant
            i <= templates@.len(),
            templates_view(kept@) == without_id(templates@.subrange(0, i as int), id@),
            removed <==> exists|j: int| 0 <= j < i && (#[trigger] templates@[j]).id@ == id@,
        decreases templates.len() - i,
    {
        let ghost prefix = templates@.subrange(0, i + 1);
        assert(prefix.drop_last() =~= templates@.subrange(0, i as int));
        assert(prefix.last() == templates@[i as int]);
        if str_equals(templates[i].id.as_str(), id) {
            removed = true;
        } else {
            kept.push(copy_template(&templates[i]));
            assert(templates_view(kept@) =~= without_id(prefix, id@));
        }
        i = i + 1;
    }
    assert(templates@.subrange(0, templates@.len() as int) =~= templates@);
    if !removed {
        let mut e = String::from_str("Prompt template with id '");
        e.append(id);
        e.append("' not found.");
        return Err(e);
    }
    Ok(kept)
}

/// The last `MAX_LOG_ENTRIES` of `entries` (all of them when there are fewer).
pub open spec fn last_entries<T>(entries: Seq<T>) -> Seq<T> {
    if entries.len() > MAX_LOG_ENTRIES {
        entries.subrange(entries.len() - MAX_LOG_ENTRIES, entries.len() as int)
    } else {
        entries
    }
}

/// Appends an entry to the log and keeps only its last `MAX_LOG_ENTRIES`.
pub fn append_log_entry(entries: &mut Vec<GenerationLogEntry>, entry: GenerationLogEntry)
    ensures
        final(entries)@ == last_entries(old(entries)@.push(entry)),
{
    entries.push(entry);
    if entries.len() > MAX_LOG_ENTRIES {
        let at = entries.len() - MAX_LOG_ENTRIES;
        let tail = entries.split_off(at);
        *entries = tail;
    }
}

/// The log paths of the reference images that carry a file name, in order.
pub open spec fn reference_log_paths(refs: Seq<ReferenceImagePayload>) -> Seq<Seq<char>>
    decreases refs.len(),
{
    if refs.len() == 0 {
        Seq::empty()
    } else {
        reference_log_paths(refs.drop_last()) + match refs.last().file_name {
            Some(n) => seq!["input/"@ + n@],
            None => Seq::empty(),
        }
    }
}

/// The log entry of a generation: the trimmed prompt, the trimmed system
/// prompt when not blank, `input/<name>` for each named reference image and
/// `output/<name>` for the stored image.
pub fn build_log_entry(timestamp: u64, payload: &GenerateImageRequest, stored_name: &str) -> (r: GenerationLogEntry)
    ensures
        r.timestamp == timestamp,
        r.prompt@ == trimmed(payload.image_prompt@),
        opt_view(r.system_prompt) == nonblank(opt_view(payload.system_prompt)),
        r.reference_images@.map_values(|s: String| s@) == reference_log_paths(payload.reference_images@),
        r.output_image@ == "output/"@ + stored_name@,
{
    let refs = &payload.reference_images;
    let mut names: Vec<String> = Vec::new();
    let mut i: usize = 0;
    while i < refs.len()
        invariant
            i <= refs@.len(),
            refs@ == payload.reference_images@,
            names@.map_values(|s: String| s@) == reference_log_paths(refs@.subrange(0, i as int)),
        decreases refs.len() - i,
    {
        let ghost prefix = refs@.subrange(0, i + 1);
        assert(prefix.drop_last() =~= refs@.subrange(0, i as int));
        if let Some(n) = &refs[i].file_name {
            let mut path = String::from_str("input/");
            path.append(n.as_str());
            names.push(path);
        }
        assert(names@.map_values(|s: String| s@) =~= reference_log_paths(prefix));
        i = i + 1;
    }
    assert(refs@.subrange(0, refs@.len() as int) =~= refs@);
    let mut output_image = String::from_str("output/");
    output_image.append(stored_name);
    GenerationLogEntry {
        timestamp,
        prompt: trim_whitespace(payload.image_prompt.as_str()),
        system_prompt: nonblank_exec(&payload.system_prompt),
        reference_images: names,
        output_image,
    }
}

/// The file name of a generated image: `image_<timestamp>` followed by the
/// MIME type's extension (`bin` when it has none), unless that is empty.
pub open spec fn generated_file_name(timestamp: u64, mime: Seq<char>) -> Seq<char> {
    let ext = match extension_for_mime(mime) {
        Some(e) => e,
        None => "bin"@,
    };
    let base = "image_"@ + decimal(timestamp as nat);
    if ext.len() == 0 {
        base
    } else {
        base + "."@ + ext
    }
}

/// The file name of a generated image, as `generated_file_name` describes.
pub fn generated_image_file_name(timestamp: u64, mime_type: &str) -> (r: String)
    ensures
        r@ == generated_file_name(timestamp, mime_type@),
{
    let ext = match default_extension_for_mime(mime_type) {
        Some(e) => e,
        None => String::from_str("bin"),
    };
    let mut name = String::from_str("image_");
    let digits = decimal_text(timestamp);
    name.append(digits.as_str());
    if ext.unicode_len() > 0 {
        name.append(".");
        name.append(ext.as_str());
    }
    name
}

/// The bytes of base64 image data (generated or uploaded); none when the
/// text is not valid base64.
pub fn decode_image_data(data: &str) -> (r: Option<Vec<u8>>)
    ensures
        match r {
            Some(b) => base64_bytes(data@) == Some(b@),
            None => base64_bytes(data@) is None,
        },
{
    base64_decode(data)
}

/// Whether a MIME type names an image (`image/...`).
pub fn is_image_mime(mime: &str) -> (r: bool)
    ensures
        r == has_prefix(mime@, "image/"@),
{
    starts_with(mime, "image/")
}

/// `order` lists positions newest first: by time, later first, and
/// positions with equal times in their original order.
pub open spec fn newest_first(order: Seq<usize>, times: Seq<u64>) -> bool {
    forall|a: int, b: int|
        0 <= a < b < order.len() ==> {
            ||| times[order[a] as int] > times[order[b] as int]
            ||| (times[order[a] as int] == times[order[b] as int] && order[a] < order[b])
        }
}

/// `order` holds each position below `n` exactly once.
pub open spec fn is_permutation(order: Seq<usize>, n: nat) -> bool {
    &&& order.len() == n
    &&& forall|k: int| 0 <= k < n ==> #[trigger] order[k] < n
    &&& forall|a: int, b: int| 0 <= a < b < n ==> order[a] != order[b]
}

/// The positions of `times`, newest first (a stable sort by descending time).
pub fn newest_first_order(times: &Vec<u64>) -> (r: Vec<usize>)
    ensures
        is_permutation(r@, times@.len()),
        newest_first(r@, times@),
{
    let mut order: Vec<usize> = Vec::new();
    let mut i: usize = 0;
    while i < times.len()
        invariant
            i <= times@.len(),
            is_permutation(order@, i as nat),
            newest_first(order@, times@),
        decreases times.len() - i,
    {
        let t = times[i];
        let mut p: usize = 0;
        while p < order.len() && times[order[p]] >= t
            invariant
                p <= order@.len(),
                is_permutation(order@, i as nat),
                i < times@.len(),
                forall|q: int| 0 <= q < p ==> times@[#[trigger] order@[q] as int] >= t,
            decreases order.len() - p,
        {
            p = p + 1;
        }
        let ghost before = order@;
        order.insert(p, i);
        proof {
            assert(order@ =~= before.subrange(0, p as int).push(i).add(before.subrange(p as int, before.len() as int)));
            assert forall|a: int, b: int| 0 <= a < b < order@.len() implies {
                ||| times@[order@[a] as int] > times@[order@[b] as int]
                ||| (times@[order@[a] as int] == times@[order@[b] as int] && order@[a] < order@[b])
            } by {
                if b < p {
                    assert(order@[a] == before[a] && order@[b] == before[b]);
                } else if b == p {
                    assert(order@[a] == before[a]);
                    assert(times@[before[a] as int] >= t);
                } else if a == p {
                    assert(order@[b] == before[b - 1]);
                    assert(times@[before[p as int] as int] < t);
                    if b - 1 > p {
                        assert(times@[before[p as int] as int] >= times@[before[b - 1] as int]);
                    }
                } else if a < p {
                    assert(order@[a] == before[a] && order@[b] == before[b - 1]);
                } else {
                    assert(order@[a] == before[a - 1] && order@[b] == before[b - 1]);
                }
            }
            assert forall|a: int, b: int| 0 <= a < b < i + 1 implies order@[a] != order@[b] by {
                if a < p && b < p {
                    assert(order@[a] == before[a] && order@[b] == before[b]);
                } else if a < p && b == p {
                    assert(order@[a] == before[a]);
                } else if a < p {
                    assert(order@[a] == before[a] && order@[b] == before[b - 1]);
                } else if a == p {
                    assert(order@[b] == before[b - 1]);
                } else {
                    assert(order@[a] == before[a - 1] && order@[b] == before[b - 1]);
                }
            }
            assert forall|k: int| 0 <= k < i + 1 implies #[trigger] order@[k] < i + 1 by {
                if k < p {
                    assert(order@[k] == before[k]);
                } else if k > p {
                    assert(order@[k] == before[k - 1]);
                }
            }
        }
        i = i + 1;
    }
    order
}

fn copy_stored_image(image: &StoredImage) -> (r: StoredImage)
    ensures
        r.id == image.id,
        r.name == image.name,
        r.size == image.size,
        r.mime_type == image.mime_type,
        r.base64 == image.base64,
{
    StoredImage {
        id: image.id.clone(),
        name: image.name.clone(),
        size: image.size,
        mime_type: image.mime_type.clone(),
        base64: image.base64.clone(),
    }
}

/// The images newest first, given each one's modification time; images
/// with equal times keep their order.
pub fn order_newest_first(images: &Vec<StoredImage>, times: &Vec<u64>) -> (r: Vec<StoredImage>)
    requires
        images@.len() == times@.len(),
    ensures
        exists|order: Seq<usize>|
            is_permutation(order, times@.len()) && newest_first(order, times@) && r@.len()
                == order.len() && forall|k: int|
                0 <= k < order.len() ==> (#[trigger] r@[k]).name == images@[order[k] as int].name
                    && r@[k].id == images@[order[k] as int].id && r@[k].size
                    == images@[order[k] as int].size && r@[k].mime_type
                    == images@[order[k] as int].mime_type && r@[k].base64
                    == images@[order[k] as int].base64,
{
    let order = newest_first_order(times);
    let mut out: Vec<StoredImage> = Vec::new();
    let mut k: usize = 0;
    while k < order.len()
        invariant
            k <= order@.len(),
            is_permutation(order@, times@.len()),
            images@.len() == times@.len(),
            out@.len() == k,
            forall|j: int|
                0 <= j < k ==> (#[trigger] out@[j]).name == images@[order@[j] as int].name
                    && out@[j].id == images@[order@[j] as int].id && out@[j].size
                    == images@[order@[j] as int].size && out@[j].mime_type
                    == images@[order@[j] as int].mime_type && out@[j].base64
                    == images@[order@[j] as int].base64,
        decreases order.len() - k,
    {
        let idx = order[k];
        out.push(copy_stored_image(&images[idx]));
        k = k + 1;
    }
    out
}

} // verus!
