use llmapi::gemini::{Candidate, Content, GeminiResponse, InlineData, Part};
use llmapi::studio::{
    append_log_entry, build_log_entry, build_user_prompt, default_extension_for_mime,
    extract_generated_image, find_template_by_name, generate_unique_id,
    generated_image_file_name, is_safe_file_name, plan_image_generation,
    remove_templates_by_id, resolve_mime_type, sanitize_file_name, save_template,
    GenerateImageRequest, GenerationLogEntry, PromptTemplates, ReferenceImagePayload,
    SavePromptsPayload, MAX_LOG_ENTRIES,
};
use llmapi::{decimal_text, LLMMessageType, LLMUserType};

fn s(x: &str) -> String {
    x.to_string()
}

fn request(prompt: &str) -> GenerateImageRequest {
    GenerateImageRequest {
        api_key: Some(s(" key ")),
        model: None,
        system_prompt: None,
        image_prompt: s(prompt),
        reference_images: vec![],
        size: None,
        quality: None,
        style: None,
        user: None,
    }
}

fn template(id: &str, name: &str) -> PromptTemplates {
    PromptTemplates { id: s(id), name: s(name), system_prompt: s("sys"), user_prompt: s("usr"), date_created: 7 }
}

fn entry(t: u64) -> GenerationLogEntry {
    GenerationLogEntry { timestamp: t, prompt: s("p"), system_prompt: None, reference_images: vec![], output_image: s("o") }
}

#[test]
fn safe_file_names() {
    assert!(is_safe_file_name("cat.png"));
    assert!(!is_safe_file_name(""));
    assert!(!is_safe_file_name("a/b.png"));
    assert!(!is_safe_file_name("a\\b.png"));
    assert!(!is_safe_file_name("..png"));
    assert!(!is_safe_file_name("a\0b"));
    assert!(is_safe_file_name("a.b.c"));
    assert_eq!(sanitize_file_name("  cat.png \n"), Some(s("cat.png")));
    assert_eq!(sanitize_file_name("   "), None);
    assert_eq!(sanitize_file_name("../etc"), None);
}

#[test]
fn extensions_for_mime_types() {
    assert_eq!(default_extension_for_mime("image/png"), Some(s("png")));
    assert_eq!(default_extension_for_mime(" IMAGE/JPEG "), Some(s("jpg")));
    assert_eq!(default_extension_for_mime("image/jpg"), Some(s("jpg")));
    assert_eq!(default_extension_for_mime("image/tiff"), Some(s("tiff")));
    assert_eq!(default_extension_for_mime("image/svg+xml"), Some(s("svg+xml")));
    assert_eq!(default_extension_for_mime("a/b/c"), Some(s("b")));
    assert_eq!(default_extension_for_mime("image/"), Some(s("")));
    assert_eq!(default_extension_for_mime("plain"), None);
}

#[test]
fn resolved_mime_types() {
    assert_eq!(resolve_mime_type(Some(s(" image/webp ")), "x.png"), "image/webp");
    assert_eq!(resolve_mime_type(Some(s("  ")), "x.png"), "image/png");
    assert_eq!(resolve_mime_type(None, "x.unknownext"), "application/octet-stream");
}

#[test]
fn user_prompt_sections() {
    let mut r = request("  a cat  ");
    assert_eq!(build_user_prompt(&r), "a cat");
    r.style = Some(s(" watercolor "));
    r.size = Some(s("16:9"));
    r.quality = Some(s("  "));
    r.user = Some(s("ann"));
    assert_eq!(
        build_user_prompt(&r),
        "a cat\n\nPreferred style: watercolor\nTarget dimensions or aspect ratio: 16:9\nRequested by user: ann"
    );
    let mut only_details = request(" ");
    only_details.quality = Some(s("high"));
    assert_eq!(build_user_prompt(&only_details), "Desired quality: high");
}

fn part_text(t: &str) -> Part {
    Part { text: Some(s(t)), inline_data: None }
}

fn part_img(mime: &str, data: &str) -> Part {
    Part { text: None, inline_data: Some(InlineData { mime_type: s(mime), data: s(data) }) }
}

fn answer(parts: Vec<Vec<Part>>) -> GeminiResponse {
    GeminiResponse {
        candidates: parts
            .into_iter()
            .map(|p| Candidate { content: Content { parts: p, role: None }, finish_reason: None, index: None })
            .collect(),
        usage_metadata: None,
        model_version: None,
        response_id: None,
    }
}

#[test]
fn generated_image_with_revised_prompt() {
    let r = answer(vec![
        vec![part_text("  "), part_img("image/png", "  "), part_text(" no image here ")],
        vec![part_text(" revised "), part_text("later"), part_img(" ", " DATA ")],
    ]);
    let g = extract_generated_image(r).unwrap();
    assert_eq!(g.mime_type, "image/png");
    assert_eq!(g.base64, "DATA");
    assert_eq!(g.revised_prompt, Some(s("revised")));
}

#[test]
fn generated_image_missing() {
    let r = answer(vec![vec![part_text("only text")]]);
    assert_eq!(extract_generated_image(r).err(), Some(s("Provider did not return an image payload.")));
}

#[test]
fn generation_plan_errors() {
    assert_eq!(plan_image_generation(&request("  ")).err(), Some(s("Image prompt cannot be empty")));
    let mut r = request("cat");
    r.api_key = Some(s("   "));
    assert_eq!(plan_image_generation(&r).err(), Some(s("API key is required to generate images.")));
    r.api_key = None;
    assert!(plan_image_generation(&r).is_err());
}

#[test]
fn generation_plan_messages() {
    let mut r = request("a cat");
    r.model = Some(s(" models/gemini-x "));
    r.system_prompt = Some(s(" be brief "));
    r.reference_images = vec![
        ReferenceImagePayload { mime_type: None, data_base64: s(" AAA "), slot: None, file_name: None },
        ReferenceImagePayload { mime_type: None, data_base64: s("   "), slot: Some(s("skip")), file_name: None },
        ReferenceImagePayload { mime_type: Some(s("image/webp")), data_base64: s("BBB"), slot: Some(s(" front ")), file_name: None },
        ReferenceImagePayload { mime_type: Some(s("weird")), data_base64: s("CCC"), slot: None, file_name: None },
    ];
    let plan = plan_image_generation(&r).unwrap();
    assert_eq!(plan.api_key, "key");
    assert_eq!(plan.model, "gemini-x");
    assert_eq!(plan.messages.len(), 2);
    assert_eq!(plan.messages[0].role, LLMUserType::Human);
    assert_eq!(plan.messages[0].content, vec![LLMMessageType::text(s("be brief"))]);
    assert_eq!(
        plan.messages[1].content,
        vec![
            LLMMessageType::IMAGE { data_b64: s("AAA"), file_path: Some(s("reference_0.png")) },
            LLMMessageType::IMAGE { data_b64: s("BBB"), file_path: Some(s("front.webp")) },
            LLMMessageType::IMAGE { data_b64: s("CCC"), file_path: Some(s("reference_3.bin")) },
            LLMMessageType::text(s("a cat")),
        ]
    );
    let plain = plan_image_generation(&request("dog")).unwrap();
    assert_eq!(plain.model, "gemini-2.5-flash-image");
    assert_eq!(plain.messages.len(), 1);
}

#[test]
fn templates_are_found_by_name() {
    let ts = vec![template("1", "a"), template("2", "b"), template("3", "b")];
    assert_eq!(find_template_by_name(&ts, "b").unwrap().id, "2");
    assert_eq!(find_template_by_name(&ts, "z").err(), Some(s("Prompt template 'z' not found.")));
}

#[test]
fn saving_updates_by_id_then_by_name() {
    let mut ts = vec![template("1", "a"), template("2", "b")];
    let p = SavePromptsPayload { id: Some(s("2")), name: s("renamed"), system_prompt: s("S"), user_prompt: s("U") };
    let r = save_template(&mut ts, p);
    assert_eq!(r.id, "2");
    assert_eq!(ts[1].name, "renamed");
    assert_eq!(ts[1].system_prompt, "S");
    assert_eq!(ts[1].date_created, 7);
    let p = SavePromptsPayload { id: None, name: s("a"), system_prompt: s("S2"), user_prompt: s("U2") };
    let r = save_template(&mut ts, p);
    assert_eq!(r.id, "1");
    assert_eq!(ts.len(), 2);
    assert_eq!(ts[0].user_prompt, "U2");
}

#[test]
fn saving_new_templates() {
    let mut ts = vec![template("1", "a")];
    let p = SavePromptsPayload { id: Some(s("9")), name: s("n"), system_prompt: s("S"), user_prompt: s("U") };
    let r = save_template(&mut ts, p);
    assert_eq!(r.id, "9");
    assert_eq!(ts.len(), 2);
    let p = SavePromptsPayload { id: None, name: s("m"), system_prompt: s("S"), user_prompt: s("U") };
    let r = save_template(&mut ts, p);
    assert_eq!(ts.len(), 3);
    assert_eq!(r.id, r.date_created.to_string());
}

#[test]
fn unique_ids_skip_taken_ones() {
    let ts = vec![template("100", "a"), template("101", "b")];
    assert_eq!(generate_unique_id(&ts, 100), "102");
    assert_eq!(generate_unique_id(&ts, 5), "5");
    assert_eq!(generate_unique_id(&vec![], u64::MAX), u64::MAX.to_string());
}

#[test]
fn removing_templates() {
    let ts = vec![template("1", "a"), template("2", "b"), template("1", "c")];
    let kept = remove_templates_by_id(ts, "1").unwrap();
    assert_eq!(kept.len(), 1);
    assert_eq!(kept[0].name, "b");
    let err = remove_templates_by_id(kept, "7").err();
    assert_eq!(err, Some(s("Prompt template with id '7' not found.")));
}

#[test]
fn log_keeps_last_entries() {
    let mut log: Vec<GenerationLogEntry> = (0..MAX_LOG_ENTRIES as u64).map(entry).collect();
    append_log_entry(&mut log, entry(1000));
    assert_eq!(log.len(), MAX_LOG_ENTRIES);
    assert_eq!(log[0].timestamp, 1);
    assert_eq!(log[MAX_LOG_ENTRIES - 1].timestamp, 1000);
    let mut short = vec![entry(1)];
    append_log_entry(&mut short, entry(2));
    assert_eq!(short.len(), 2);
}

#[test]
fn log_entry_fields() {
    let mut r = request("  a cat ");
    r.system_prompt = Some(s("   "));
    r.reference_images = vec![
        ReferenceImagePayload { mime_type: None, data_base64: s("A"), slot: None, file_name: Some(s("x.png")) },
        ReferenceImagePayload { mime_type: None, data_base64: s("B"), slot: None, file_name: None },
    ];
    let e = build_log_entry(42, &r, "image_1.png");
    assert_eq!(e.timestamp, 42);
    assert_eq!(e.prompt, "a cat");
    assert_eq!(e.system_prompt, None);
    assert_eq!(e.reference_images, vec![s("input/x.png")]);
    assert_eq!(e.output_image, "output/image_1.png");
}

#[test]
fn generated_file_names() {
    assert_eq!(generated_image_file_name(12, "image/png"), "image_12.png");
    assert_eq!(generated_image_file_name(0, "nothing"), "image_0.bin");
    assert_eq!(generated_image_file_name(5, "image/"), "image_5");
    assert_eq!(decimal_text(1234567890), "1234567890");
}

#[test]
fn new_template_fields() {
    let t = PromptTemplates::new(None, s("n"), s("a"), s("b"));
    assert_eq!(t.id, t.date_created.to_string());
    let t = PromptTemplates::new(Some(s("x")), s("n"), s("a"), s("b"));
    assert_eq!(t.id, "x");
    assert_eq!(t.user_prompt, "b");
}

fn stored(name: &str) -> llmapi::studio::StoredImage {
    llmapi::studio::StoredImage { id: s(name), name: s(name), size: 1, mime_type: s("image/png"), base64: s("") }
}

#[test]
fn images_are_listed_newest_first() {
    let images = vec![stored("a"), stored("b"), stored("c"), stored("d")];
    let times = vec![5, 9, 5, 1];
    let ordered = llmapi::studio::order_newest_first(&images, &times);
    let names: Vec<&str> = ordered.iter().map(|i| i.name.as_str()).collect();
    assert_eq!(names, vec!["b", "a", "c", "d"]);
    assert_eq!(llmapi::studio::newest_first_order(&vec![]), Vec::<usize>::new());
}

#[test]
fn image_mime_filter() {
    assert!(llmapi::studio::is_image_mime("image/png"));
    assert!(!llmapi::studio::is_image_mime("text/plain"));
    assert!(!llmapi::studio::is_image_mime("image"));
}

#[test]
fn image_data_decoding() {
    assert_eq!(llmapi::studio::decode_image_data("aGk="), Some(b"hi".to_vec()));
    assert_eq!(llmapi::studio::decode_image_data("not base64!"), None);
    assert_eq!(llmapi::studio::decode_image_data(""), Some(vec![]));
}
