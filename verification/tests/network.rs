use base64::Engine;
use mouthwrite_linux::config::{AsrConfig, LlmConfig, TranslationConfig};
use mouthwrite_linux::error::AppError;
use mouthwrite_linux::json::Json;
use mouthwrite_linux::network::asr_http::AsrHttpClient;
use mouthwrite_linux::network::llm_sse::{LlmClient, SseStep};
use mouthwrite_linux::network::{bearer_authorization, status_is_success, HttpRequest};

fn s(x: &str) -> Json {
    Json::Str(x.to_string())
}

fn obj(entries: Vec<(&str, Json)>) -> Json {
    Json::Object(entries.into_iter().map(|(k, v)| (k.to_string(), v)).collect())
}

fn same(a: &Json, b: &Json) -> bool {
    match (a, b) {
        (Json::Null, Json::Null) => true,
        (Json::Bool(x), Json::Bool(y)) => x == y,
        (Json::Number(x), Json::Number(y)) => x == y,
        (Json::Str(x), Json::Str(y)) => x == y,
        (Json::Array(x), Json::Array(y)) => {
            x.len() == y.len() && x.iter().zip(y.iter()).all(|(p, q)| same(p, q))
        }
        (Json::Object(x), Json::Object(y)) => {
            x.len() == y.len()
                && x.iter().zip(y.iter()).all(|((k1, v1), (k2, v2))| k1 == k2 && same(v1, v2))
        }
        _ => false,
    }
}

fn asr_config(key: &str) -> AsrConfig {
    AsrConfig {
        api_url: "https://example.test/v1/chat/completions".to_string(),
        api_key: key.to_string(),
        model: "qwen3-asr-flash".to_string(),
    }
}

fn request(r: Result<HttpRequest, AppError>) -> HttpRequest {
    match r {
        Ok(req) => req,
        Err(e) => panic!("{}", e.describe()),
    }
}

#[test]
fn wav_header_is_exact() {
    let wav = AsrHttpClient::pcm_to_wav(&[1, 2, 3, 4]);
    let mut expected: Vec<u8> = Vec::new();
    expected.extend_from_slice(b"RIFF");
    expected.extend_from_slice(&40u32.to_le_bytes());
    expected.extend_from_slice(b"WAVE");
    expected.extend_from_slice(b"fmt ");
    expected.extend_from_slice(&16u32.to_le_bytes());
    expected.extend_from_slice(&1u16.to_le_bytes());
    expected.extend_from_slice(&1u16.to_le_bytes());
    expected.extend_from_slice(&16000u32.to_le_bytes());
    expected.extend_from_slice(&32000u32.to_le_bytes());
    expected.extend_from_slice(&2u16.to_le_bytes());
    expected.extend_from_slice(&16u16.to_le_bytes());
    expected.extend_from_slice(b"data");
    expected.extend_from_slice(&4u32.to_le_bytes());
    expected.extend_from_slice(&[1, 2, 3, 4]);
    assert_eq!(wav, expected);
    assert_eq!(wav.len(), 48);
}

#[test]
fn asr_request_carries_base64_wav() {
    let pcm = vec![0u8, 1, 2, 3, 250, 251];
    let req = request(AsrHttpClient::build_request(&asr_config("sk-1"), &pcm));
    let b64 = base64::engine::general_purpose::STANDARD.encode(AsrHttpClient::pcm_to_wav(&pcm));
    let uri = format!("data:audio/wav;base64,{}", b64);
    assert_eq!(req.url, "https://example.test/v1/chat/completions");
    assert_eq!(req.authorization, "Bearer sk-1");
    let expected = obj(vec![
        ("model", s("qwen3-asr-flash")),
        (
            "messages",
            Json::Array(vec![obj(vec![
                ("role", s("user")),
                (
                    "content",
                    Json::Array(vec![obj(vec![
                        ("type", s("input_audio")),
                        ("input_audio", obj(vec![("data", s(&uri)), ("format", s("wav"))])),
                    ])]),
                ),
            ])]),
        ),
    ]);
    assert!(same(&req.body, &expected));
}

#[test]
fn asr_request_rejects_empty_audio() {
    match AsrHttpClient::build_request(&asr_config("k"), &[]) {
        Err(AppError::InternalError(m)) => assert_eq!(m, "No audio data to transcribe"),
        _ => panic!("empty audio was not refused"),
    }
}

#[test]
fn asr_request_rejects_bad_key() {
    match AsrHttpClient::build_request(&asr_config("bad\nkey"), &[1, 2]) {
        Err(AppError::ConfigError(m)) => {
            assert_eq!(m, "Invalid API key: failed to parse header value")
        }
        _ => panic!("a key with a newline was accepted"),
    }
}

#[test]
fn bearer_accepts_tabs_and_non_ascii() {
    assert_eq!(bearer_authorization("a\tb").ok(), Some("Bearer a\tb".to_string()));
    assert_eq!(bearer_authorization("ключ").ok(), Some("Bearer ключ".to_string()));
    assert!(bearer_authorization("x\u{7f}").is_err());
}

#[test]
fn status_success_range() {
    assert!(status_is_success(200));
    assert!(status_is_success(299));
    assert!(!status_is_success(300));
    assert!(!status_is_success(199));
    assert!(!status_is_success(404));
}

fn asr_response(content: Json) -> Json {
    obj(vec![(
        "choices",
        Json::Array(vec![obj(vec![(
            "message",
            obj(vec![("role", s("assistant")), ("content", content)]),
        )])]),
    )])
}

#[test]
fn transcript_is_trimmed_content() {
    let doc = asr_response(s("  hello world \n"));
    match AsrHttpClient::transcript_from(&Ok(doc)) {
        Ok(t) => assert_eq!(t, "hello world"),
        Err(e) => panic!("{}", e.describe()),
    }
}

#[test]
fn transcript_errors() {
    match AsrHttpClient::transcript_from(&Ok(asr_response(s("   ")))) {
        Err(AppError::InternalError(m)) => assert_eq!(m, "ASR returned no transcription"),
        _ => panic!("blank transcript accepted"),
    }
    match AsrHttpClient::transcript_from(&Ok(asr_response(Json::Number("3".to_string())))) {
        Err(AppError::InternalError(m)) => assert_eq!(m, "ASR returned no transcription"),
        _ => panic!("non-string transcript accepted"),
    }
    match AsrHttpClient::transcript_from(&Err("expected value at line 1".to_string())) {
        Err(AppError::InternalError(m)) => {
            assert_eq!(m, "Failed to parse ASR response: expected value at line 1")
        }
        _ => panic!("parse failure not reported"),
    }
}

fn llm_config() -> LlmConfig {
    LlmConfig {
        api_url: "https://example.test/llm".to_string(),
        api_key: "k1".to_string(),
        model: "qwen-plus".to_string(),
        system_prompt: "Polish the text.".to_string(),
        enable_thinking: false,
    }
}

#[test]
fn optimize_request_body() {
    let req = request(LlmClient::optimize_request(&llm_config(), "hi there"));
    assert_eq!(req.url, "https://example.test/llm");
    assert_eq!(req.authorization, "Bearer k1");
    let expected = obj(vec![
        ("model", s("qwen-plus")),
        (
            "messages",
            Json::Array(vec![
                obj(vec![("role", s("system")), ("content", s("Polish the text."))]),
                obj(vec![("role", s("user")), ("content", s("<text>hi there</text>"))]),
            ]),
        ),
        ("stream", Json::Bool(true)),
        ("enable_thinking", Json::Bool(false)),
    ]);
    assert!(same(&req.body, &expected));
}

#[test]
fn translate_request_body() {
    let config = TranslationConfig {
        api_url: "https://example.test/mt".to_string(),
        api_key: "k2".to_string(),
        model: "qwen-mt-turbo".to_string(),
        source_lang: "auto".to_string(),
        target_lang: "English".to_string(),
        enable_thinking: true,
    };
    let req = request(LlmClient::translate_request(&config, "你好"));
    let expected = obj(vec![
        ("model", s("qwen-mt-turbo")),
        ("messages", Json::Array(vec![obj(vec![("role", s("user")), ("content", s("你好"))])])),
        (
            "translation_options",
            obj(vec![("source_lang", s("auto")), ("target_lang", s("English"))]),
        ),
        ("stream", Json::Bool(true)),
        ("enable_thinking", Json::Bool(true)),
    ]);
    assert!(same(&req.body, &expected));
}

#[test]
fn stream_request_rejects_bad_key() {
    let mut config = llm_config();
    config.api_key = "a\rb".to_string();
    match LlmClient::optimize_request(&config, "x") {
        Err(AppError::ConfigError(m)) => {
            assert_eq!(m, "Invalid Header Value: failed to parse header value")
        }
        _ => panic!("bad header accepted"),
    }
}

fn delta(content: Json) -> Json {
    obj(vec![("choices", Json::Array(vec![obj(vec![("delta", obj(vec![("content", content)]))])]))])
}

#[test]
fn sse_events() {
    assert!(matches!(LlmClient::sse_step("[DONE]", &None), SseStep::Finish));
    match LlmClient::sse_step("{..}", &Some(delta(s("Hel")))) {
        SseStep::Emit(t) => assert_eq!(t, "Hel"),
        _ => panic!("content not forwarded"),
    }
    assert!(matches!(LlmClient::sse_step("{..}", &Some(delta(s("")))), SseStep::Skip));
    assert!(matches!(LlmClient::sse_step("{..}", &Some(delta(Json::Null))), SseStep::Skip));
    assert!(matches!(LlmClient::sse_step("not json", &None), SseStep::Skip));
    assert!(matches!(
        LlmClient::sse_step("{}", &Some(obj(vec![("choices", Json::Array(vec![]))]))),
        SseStep::Skip
    ));
}

#[test]
fn json_lookups() {
    let doc = obj(vec![("a", Json::Array(vec![s("x"), Json::Bool(true)]))]);
    let a = doc.get("a");
    assert!(a.is_some());
    assert!(doc.get("b").is_none());
    let first = a.and_then(|v| v.at(0)).and_then(|v| v.as_str());
    assert_eq!(first, Some("x"));
    assert!(a.and_then(|v| v.at(2)).is_none());
    assert!(a.and_then(|v| v.at(1)).and_then(|v| v.as_str()).is_none());
}
