use clipper::classify::{
    category_prompt, category_request, classification_result, classification_without_model,
    is_url, submitted_category, summary_request, truncated_payload, CategoryRequest,
    SummaryOutcome,
};
use clipper::clip::Clip;
use clipper::response::{
    category_from_outputs, extract_content_from_output, summary_from_outputs, MessagePart,
    OutputContent,
};

#[test]
fn is_url_accepts_only_web_schemes() {
    assert!(is_url("https://example.com"));
    assert!(is_url("http://example.com/a?b=c"));
    assert!(!is_url("just some text"));
    assert!(!is_url("ftp://x"));
    assert!(!is_url("see https://example.com"));
    assert!(!is_url(""));
}

#[test]
fn is_url_parses_the_trimmed_text() {
    assert!(is_url("  https://example.com\n"));
    assert!(is_url("\u{a0}https://example.com\u{a0}"));
    assert!(!is_url("  ftp://x  "));
}

#[test]
fn summary_asked_for_padded_url() {
    let url = Clip::Text { plain: "\u{a0}https://example.com".to_string() };
    assert!(summary_request(&url).is_some());
}

#[test]
fn without_model_fallbacks_stand() {
    let url = Clip::Text { plain: "https://example.com".to_string() };
    let r = classification_without_model(&url);
    assert_eq!(r.category, "other");
    assert_eq!(r.summary, Some("No summary available".to_string()));
    let text = Clip::Text { plain: "hello".to_string() };
    assert_eq!(classification_without_model(&text).summary, None);
    let image = Clip::Image { data: vec![1], width: 1, height: 1 };
    let r = classification_without_model(&image);
    assert_eq!(r.category, "image");
    assert_eq!(r.summary, None);
}

#[test]
fn submitted_category_prefers_user_then_suggestion() {
    assert_eq!(submitted_category("mine", &Some("notes".to_string())), "mine");
    assert_eq!(submitted_category("", &Some("notes".to_string())), "notes");
    assert_eq!(submitted_category("", &None), "other");
}

#[test]
fn long_text_is_cut_to_limit_with_marker() {
    let text: String = std::iter::repeat('a').take(2500).collect();
    let p = truncated_payload(&text);
    assert_eq!(p.chars().count(), 2003);
    assert!(p.ends_with("..."));
    assert_eq!(&p[..2000], &text[..2000]);
}

#[test]
fn text_at_limit_is_unchanged() {
    let text: String = std::iter::repeat('b').take(2000).collect();
    assert_eq!(truncated_payload(&text), text);
    assert_eq!(truncated_payload(""), "");
}

#[test]
fn cut_counts_characters_not_bytes() {
    let text: String = std::iter::repeat('é').take(2001).collect();
    let p = truncated_payload(&text);
    assert_eq!(p.chars().count(), 2003);
    assert!(p.starts_with("éé"));
    assert!(p.ends_with("é..."));
}

#[test]
fn category_prompt_prefixes_content() {
    assert_eq!(category_prompt("npm install"), "Categorize this content:\n\nnpm install");
}

#[test]
fn images_are_categorised_without_a_call() {
    let clip = Clip::Image { data: vec![0, 1], width: 1, height: 1 };
    assert_eq!(category_request(&clip), CategoryRequest::Known("image".to_string()));
    assert_eq!(summary_request(&clip), None);
}

#[test]
fn text_is_sent_for_category() {
    let clip = Clip::Text { plain: "hello".to_string() };
    assert_eq!(
        category_request(&clip),
        CategoryRequest::Ask("Categorize this content:\n\nhello".to_string())
    );
}

#[test]
fn summary_only_for_urls() {
    let url = Clip::Text { plain: "https://example.com".to_string() };
    let p = summary_request(&url).unwrap();
    assert!(p.ends_with("\n\nhttps://example.com"));
    assert!(p.starts_with("Please summarize"));
    let text = Clip::Text { plain: "hello world".to_string() };
    assert_eq!(summary_request(&text), None);
}

fn message(texts: &[&str]) -> OutputContent {
    OutputContent::Message(texts.iter().map(|t| MessagePart::OutputText(t.to_string())).collect())
}

#[test]
fn extract_takes_first_text_part() {
    let out = OutputContent::Message(vec![
        MessagePart::Other,
        MessagePart::OutputText("first".to_string()),
        MessagePart::OutputText("second".to_string()),
    ]);
    assert_eq!(extract_content_from_output(&out), Some("first".to_string()));
    assert_eq!(extract_content_from_output(&OutputContent::Other), None);
    assert_eq!(extract_content_from_output(&OutputContent::Message(vec![])), None);
}

#[test]
fn category_is_trimmed_and_lowercased() {
    let outs = vec![message(&["  Code_Snippet \n"])];
    assert_eq!(category_from_outputs(&outs), "code_snippet");
}

#[test]
fn unusable_answers_fall_back() {
    let long: String = std::iter::repeat('x').take(50).collect();
    assert_eq!(category_from_outputs(&vec![message(&[&long])]), "other");
    assert_eq!(category_from_outputs(&vec![message(&["   "])]), "other");
    assert_eq!(category_from_outputs(&vec![]), "other");
    let outs = vec![OutputContent::Other, message(&["   "]), message(&[" URL "])];
    assert_eq!(category_from_outputs(&outs), "url");
}

#[test]
fn category_just_under_limit_is_kept() {
    let label: String = std::iter::repeat('y').take(49).collect();
    assert_eq!(category_from_outputs(&vec![message(&[&label])]), label);
}

#[test]
fn summary_is_trimmed_not_lowercased() {
    let outs = vec![message(&["  - Point One\n"])];
    assert_eq!(summary_from_outputs(&outs), "- Point One");
    assert_eq!(summary_from_outputs(&vec![message(&[" "])]), "No summary available");
}

#[test]
fn classification_falls_back_per_call() {
    let r = classification_result(None, SummaryOutcome::Failed);
    assert_eq!(r.category, "other");
    assert_eq!(r.summary, Some("No summary available".to_string()));
    let r = classification_result(Some("notes".to_string()), SummaryOutcome::NotAsked);
    assert_eq!(r.category, "notes");
    assert_eq!(r.summary, None);
    let r = classification_result(Some("url".to_string()), SummaryOutcome::Answered("- a".to_string()));
    assert_eq!(r.summary, Some("- a".to_string()));
}
