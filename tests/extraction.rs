use llm_responses::extract::{extract_decoded, ExtractionError, ProviderKind, ProviderResponse};
use llm_responses::message::Message;
use llm_responses::schemas::{
    AnthropicMessage, AnthropicResponse, Candidate, Content, GeminiResponse, MessageWrapper,
    OllamaResponse, OpenAiResponse, Part, SafetyRating, UsageMetadata,
};

fn message(role: &str, content: &str) -> Message {
    Message { role: role.to_string(), content: content.to_string() }
}

fn openai(contents: &[&str]) -> OpenAiResponse {
    OpenAiResponse {
        choices: contents
            .iter()
            .map(|c| MessageWrapper { message: message("assistant", c) })
            .collect(),
    }
}

fn anthropic(texts: &[&str]) -> AnthropicResponse {
    AnthropicResponse {
        content: texts
            .iter()
            .map(|t| AnthropicMessage { text: t.to_string(), block_type: "text".to_string() })
            .collect(),
    }
}

fn candidate(parts: &[&str], index: usize) -> Candidate {
    Candidate {
        content: Content { parts: parts.iter().map(|t| Part { text: t.to_string() }).collect() },
        finish_reason: Some("STOP".to_string()),
        index,
        safety_ratings: vec![SafetyRating {
            category: "HARM_CATEGORY_HARASSMENT".to_string(),
            probability: "NEGLIGIBLE".to_string(),
        }],
    }
}

fn gemini(candidates: &[&[&str]]) -> GeminiResponse {
    GeminiResponse {
        candidates: candidates.iter().enumerate().map(|(i, ps)| candidate(ps, i)).collect(),
        usage_metadata: UsageMetadata {
            prompt_token_count: 3,
            candidates_token_count: 4,
            total_token_count: 7,
        },
    }
}

#[test]
fn openai_single_choice_gives_its_content() {
    assert_eq!(openai(&["hi"]).text(), Ok("hi".to_string()));
}

#[test]
fn openai_takes_only_the_first_choice() {
    assert_eq!(openai(&["first", "second"]).text(), Ok("first".to_string()));
}

#[test]
fn openai_empty_choices_is_empty_result() {
    assert_eq!(openai(&[]).text(), Err(ExtractionError::EmptyResultError));
}

#[test]
fn openai_empty_content_is_an_empty_text() {
    assert_eq!(openai(&[""]).text(), Ok(String::new()));
}

#[test]
fn anthropic_single_block_gives_its_text() {
    assert_eq!(anthropic(&["hi"]).text(), Ok("hi".to_string()));
}

#[test]
fn anthropic_takes_only_the_first_block() {
    assert_eq!(anthropic(&["one", "two"]).text(), Ok("one".to_string()));
}

#[test]
fn anthropic_empty_content_is_empty_result() {
    assert_eq!(anthropic(&[]).text(), Err(ExtractionError::EmptyResultError));
}

#[test]
fn ollama_gives_the_message_content() {
    let r = OllamaResponse { message: message("assistant", "hi") };
    assert_eq!(r.text(), "hi".to_string());
}

#[test]
fn gemini_two_candidates_two_parts_each() {
    assert_eq!(gemini(&[&["a", "b"], &["c", "d"]]).text(), Ok("a\nb\n\nc\nd".to_string()));
}

#[test]
fn gemini_single_part_is_verbatim() {
    assert_eq!(gemini(&[&["hello world"]]).text(), Ok("hello world".to_string()));
}

#[test]
fn gemini_empty_candidates_is_empty_result() {
    assert_eq!(gemini(&[]).text(), Err(ExtractionError::EmptyResultError));
}

#[test]
fn gemini_candidate_without_parts_reads_empty() {
    assert_eq!(gemini(&[&["x"], &[]]).text(), Ok("x\n\n".to_string()));
}

#[test]
fn gemini_keeps_candidate_and_part_order() {
    let whole = gemini(&[&["z", "y"], &["b"], &["a", "c"]]).text().unwrap();
    let first = gemini(&[&["z", "y"]]).text().unwrap();
    let rest = gemini(&[&["b"], &["a", "c"]]).text().unwrap();
    assert_eq!(whole, format!("{}\n\n{}", first, rest));
    assert_eq!(whole, "z\ny\n\nb\n\na\nc");
}

#[test]
fn candidate_text_joins_parts_with_newlines() {
    assert_eq!(candidate(&["p", "q", "r"], 0).text(), "p\nq\nr".to_string());
}

#[test]
fn every_provider_with_empty_collection_fails() {
    let responses = vec![
        ProviderResponse::OpenAi(openai(&[])),
        ProviderResponse::Anthropic(anthropic(&[])),
        ProviderResponse::Gemini(gemini(&[])),
    ];
    for r in responses {
        assert_eq!(r.text(), Err(ExtractionError::EmptyResultError));
    }
}

#[test]
fn provider_response_dispatches_by_kind() {
    let cases = vec![
        (ProviderResponse::OpenAi(openai(&["o"])), ProviderKind::OpenAiLike, "o"),
        (ProviderResponse::Anthropic(anthropic(&["a"])), ProviderKind::AnthropicLike, "a"),
        (
            ProviderResponse::Ollama(OllamaResponse { message: message("assistant", "l") }),
            ProviderKind::OllamaLike,
            "l",
        ),
        (ProviderResponse::Gemini(gemini(&[&["g", "h"]])), ProviderKind::GeminiLike, "g\nh"),
    ];
    for (r, kind, text) in cases {
        assert_eq!(r.kind(), kind);
        assert_eq!(r.text(), Ok(text.to_string()));
    }
}

#[test]
fn failed_decode_is_decode_error() {
    assert_eq!(extract_decoded(None), Err(ExtractionError::DecodeError));
}

#[test]
fn decoded_response_gives_its_text() {
    let r = ProviderResponse::OpenAi(openai(&["hi"]));
    assert_eq!(extract_decoded(Some(r)), Ok("hi".to_string()));
}

#[test]
fn decoded_empty_response_is_empty_result() {
    let r = ProviderResponse::Anthropic(anthropic(&[]));
    assert_eq!(extract_decoded(Some(r)), Err(ExtractionError::EmptyResultError));
}
