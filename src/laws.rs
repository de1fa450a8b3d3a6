//! Properties that relate several functions of the library, proved.
use vstd::prelude::*;
use crate::anthropic::{anthropic_content, AnthropicPartView};
use crate::dispatch::{diagnostic_text, is_diagnostic};
use crate::gemini::{embed_action, gemini_parts, is_embedding_request, EmbedMethod, GeminiEmbedRequest, PartWireView};
use crate::openai::{
    data_url, data_url_payload, openai_content, openai_request_part, openai_response_part,
    openai_response_parts, ChatContentView,
};
use crate::text::join_lines;
use crate::types::{
    all_text, canonical_role, image_mime, parts_view, role_for_key, role_key, text_segments,
    LLMClient, LLMMessage, LLMProvider, LLMUserType, PartView, ProviderError,
};

verus! {

/// Role canonicalisation depends on nothing but the trimmed, lowercased key:
/// two role strings with the same key get the same role, whatever their case
/// or surrounding whitespace.
pub proof fn role_depends_on_key_alone(a: Seq<char>, b: Seq<char>)
    requires
        role_key(a) == role_key(b),
    ensures
        canonical_role(a) == canonical_role(b),
{
}

/// A role string whose key is not in the synonym table resolves to `Human`.
pub proof fn unknown_role_is_human(s: Seq<char>)
    requires
        role_for_key(role_key(s)) is None,
    ensures
        canonical_role(s) == LLMUserType::Human,
{
}

/// A message with no content parts is never sent as an empty array: OpenAI
/// gets an empty string, Anthropic and Gemini one empty text part.
pub proof fn empty_content_becomes_one_empty_text(parts: Seq<PartView>)
    requires
        parts.len() == 0,
    ensures
        openai_content(parts) == ChatContentView::Text(Seq::empty()),
        anthropic_content(parts) == seq![AnthropicPartView::Text(Seq::empty())],
        gemini_parts(parts) == seq![PartWireView { text: Some(Seq::empty()), inline: None }],
{
    assert(text_segments(parts) =~= Seq::<Seq<char>>::empty());
    assert(anthropic_content(parts) =~= seq![AnthropicPartView::Text(Seq::empty())]);
    assert(gemini_parts(parts) =~= seq![PartWireView { text: Some(Seq::empty()), inline: None }]);
}

/// A content part with its source path forgotten.
pub open spec fn without_path(p: PartView) -> PartView {
    match p {
        PartView::Text(t) => PartView::Text(t),
        PartView::Image { data, path } => PartView::Image { data, path: None },
    }
}

/// No image of `parts` is sent with a MIME type that holds a comma.
pub open spec fn mimes_without_comma(parts: Seq<PartView>) -> bool {
    forall|i: int|
        0 <= i < parts.len() ==> match #[trigger] parts[i] {
            PartView::Image { path, .. } => !image_mime(path, "image/png"@).contains(','),
            PartView::Text(_) => true,
        }
}

proof fn payload_after_first_comma(x: Seq<char>, d: Seq<char>)
    requires
        !x.contains(','),
    ensures
        data_url_payload(x + seq![','] + d) == Some(d),
    decreases x.len(),
{
    let s = x + seq![','] + d;
    if x.len() == 0 {
        assert(s.drop_first() =~= d);
    } else {
        assert(s[0] == x[0]);
        assert(!x.drop_first().contains(',')) by {
            if x.drop_first().contains(',') {
                let k = choose|k: int| 0 <= k < x.drop_first().len() && x.drop_first()[k] == ',';
                assert(x[k + 1] == ',');
            }
        }
        assert(s.drop_first() =~= x.drop_first() + seq![','] + d);
        payload_after_first_comma(x.drop_first(), d);
    }
}

proof fn part_round_trip(p: PartView)
    requires
        p matches PartView::Image { path, .. } ==> !image_mime(path, "image/png"@).contains(','),
    ensures
        openai_response_part(openai_request_part(p)) == seq![without_path(p)],
{
    reveal_strlit("text");
    reveal_strlit("output_text");
    reveal_strlit("output_image");
    reveal_strlit("input_image");
    match p {
        PartView::Text(t) => {},
        PartView::Image { data, path } => {
            reveal_strlit("data:");
            reveal_strlit(";base64,");
            let mime = image_mime(path, "image/png"@);
            let x = "data:"@ + mime + ";base64"@;
            reveal_strlit(";base64");
            assert(";base64,"@ =~= ";base64"@ + seq![',']);
            assert(data_url(mime, data) =~= x + seq![','] + data);
            assert(!x.contains(',')) by {
                if x.contains(',') {
                    let k = choose|k: int| 0 <= k < x.len() && x[k] == ',';
                    if k < 5 {
                        assert(x[k] == "data:"@[k]);
                    } else if k < 5 + mime.len() {
                        assert(x[k] == mime[k - 5]);
                    } else {
                        assert(x[k] == ";base64"@[k - 5 - mime.len()]);
                    }
                }
            }
            payload_after_first_comma(x, data);
            assert("input_image"@[0] != "text"@[0]);
            assert("input_image"@[0] != "output_text"@[0]);
        },
    }
}

/// OpenAI content: all-text parts are sent as their newline-joined string;
/// parts with an image are sent as a typed array, and reading that array
/// back as an answer gives the same parts, source paths forgotten.
pub proof fn openai_content_round_trip(parts: Seq<PartView>)
    requires
        mimes_without_comma(parts),
    ensures
        all_text(parts) ==> openai_content(parts) == ChatContentView::Text(
            join_lines(text_segments(parts)),
        ),
        !all_text(parts) ==> (openai_content(parts) matches ChatContentView::Parts(ps)
            && openai_response_parts(ps) == parts.map_values(|p: PartView| without_path(p))),
    decreases parts.len(),
{
    if !all_text(parts) {
        sent_parts_read_back(parts);
    }
}

proof fn sent_parts_read_back(parts: Seq<PartView>)
    requires
        mimes_without_comma(parts),
    ensures
        openai_response_parts(parts.map_values(|p: PartView| openai_request_part(p)))
            == parts.map_values(|p: PartView| without_path(p)),
    decreases parts.len(),
{
    let sent = parts.map_values(|p: PartView| openai_request_part(p));
    if parts.len() == 0 {
        assert(parts.map_values(|p: PartView| without_path(p)) =~= Seq::<PartView>::empty());
    } else {
        let init = parts.drop_last();
        assert(mimes_without_comma(init)) by {
            assert forall|i: int| 0 <= i < init.len() implies match #[trigger] init[i] {
                PartView::Image { path, .. } => !image_mime(path, "image/png"@).contains(','),
                PartView::Text(_) => true,
            } by {
                assert(init[i] == parts[i]);
            }
        }
        sent_parts_read_back(init);
        assert(sent.drop_last() =~= init.map_values(|p: PartView| openai_request_part(p)));
        assert(parts[parts.len() - 1] == parts.last());
        part_round_trip(parts.last());
        assert(parts.map_values(|p: PartView| without_path(p)) =~= init.map_values(
            |p: PartView| without_path(p),
        ) + seq![without_path(parts.last())]);
    }
}

/// A failed chat call resolves to a system message with exactly one text
/// part, and that text is never empty.
pub proof fn diagnostic_is_nonempty_system_text(m: LLMMessage, p: LLMProvider, e: ProviderError)
    requires
        is_diagnostic(m, p, e),
    ensures
        m.role == LLMUserType::System,
        m.content@.len() == 1,
        m.content@[0]@ matches PartView::Text(t) && t.len() > 0,
{
    reveal_strlit("OpenAI error: ");
    reveal_strlit("Anthropic error: ");
    reveal_strlit("Gemini error: ");
    assert(parts_view(m.content@).len() == 1);
    assert(parts_view(m.content@)[0] == m.content@[0]@);
    assert(diagnostic_text(p, e).len() > 0);
}

/// A Gemini embedding request for exactly one text goes to `embedContent`;
/// one for two or more texts goes to `batchEmbedContents`, with one
/// per-text request for each text.
pub proof fn gemini_endpoint_follows_text_count(q: GeminiEmbedRequest, client: LLMClient, texts: Seq<String>)
    requires
        is_embedding_request(q, client, texts),
    ensures
        texts.len() == 1 ==> q.method == EmbedMethod::Single && embed_action(q.method) == ":embedContent"@,
        texts.len() >= 2 ==> q.method == EmbedMethod::Batch && embed_action(q.method)
            == ":batchEmbedContents"@,
        q.requests@.len() == texts.len(),
{
}

} // verus!
