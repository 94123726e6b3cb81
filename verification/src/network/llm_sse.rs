//! Text optimisation and translation requests, and the handling of each
//! server-sent event of their streamed answers.
use vstd::prelude::*;
use crate::config::{LlmConfig, TranslationConfig};
use crate::error::AppError;
use crate::json::{
    find_field, entry_models_of, json_str, model_of, models_of, push_entry, push_item, then_field, then_item,
    then_text, Json, JsonValue,
};
use crate::network::{bearer_authorization, bearer_spec, header_value_ok, invalid_header_text, HttpRequest};
use crate::text::concat;

verus! {

/// Streaming chat completions for text optimisation and translation.
pub struct LlmClient;

/// What to do with one server-sent event of a streamed answer.
pub enum SseStep {
    /// The stream is complete.
    Finish,
    /// Forward this piece of text.
    Emit(String),
    /// Nothing to forward; keep reading.
    Skip,
}

/// The model input for optimisation: the recognised text between `<text>`
/// tags.
pub open spec fn tagged_spec(text: Seq<char>) -> Seq<char> {
    "<text>"@ + text + "</text>"@
}

/// The body of a streamed optimisation request.
pub open spec fn optimize_payload_spec(
    model: Seq<char>,
    system_prompt: Seq<char>,
    enable_thinking: bool,
    text: Seq<char>,
) -> JsonValue {
    JsonValue::Object(
        seq![
            ("model"@, JsonValue::Str(model)),
            (
                "messages"@,
                JsonValue::Array(
                    seq![
                        JsonValue::Object(
                            seq![
                                ("role"@, JsonValue::Str("system"@)),
                                ("content"@, JsonValue::Str(system_prompt)),
                            ],
                        ),
                        JsonValue::Object(
                            seq![
                                ("role"@, JsonValue::Str("user"@)),
                                ("content"@, JsonValue::Str(tagged_spec(text))),
                            ],
                        ),
                    ],
                ),
            ),
            ("stream"@, JsonValue::Bool(true)),
            ("enable_thinking"@, JsonValue::Bool(enable_thinking)),
        ],
    )
}

/// The body of a streamed translation request.
pub open spec fn translate_payload_spec(
    model: Seq<char>,
    source_lang: Seq<char>,
    target_lang: Seq<char>,
    enable_thinking: bool,
    text: Seq<char>,
) -> JsonValue {
    JsonValue::Object(
        seq![
            ("model"@, JsonValue::Str(model)),
            (
                "messages"@,
                JsonValue::Array(
                    seq![
                        JsonValue::Object(
                            seq![
                                ("role"@, JsonValue::Str("user"@)),
                                ("content"@, JsonValue::Str(text)),
                            ],
                        ),
                    ],
                ),
            ),
            (
                "translation_options"@,
                JsonValue::Object(
                    seq![
                        ("source_lang"@, JsonValue::Str(source_lang)),
                        ("target_lang"@, JsonValue::Str(target_lang)),
                    ],
                ),
            ),
            ("stream"@, JsonValue::Bool(true)),
            ("enable_thinking"@, JsonValue::Bool(enable_thinking)),
        ],
    )
}

/// The text increment that a parsed event carries at
/// `choices[0].delta.content`, if it carries one.
pub open spec fn delta_content_spec(doc: JsonValue) -> Option<Seq<char>> {
    then_text(then_field(then_field(then_item(doc.field("choices"@), 0), "delta"@), "content"@))
}

/// What one event calls for, given its data and that data parsed as JSON
/// (nothing when it is not JSON).
pub open spec fn sse_step_spec(data: Seq<char>, parsed: Option<JsonValue>) -> Option<Seq<char>> {
    if data == "[DONE]"@ {
        None
    } else {
        match parsed {
            Some(doc) => match delta_content_spec(doc) {
                Some(c) => if c.len() > 0 {
                    Some(c)
                } else {
                    None
                },
                None => None,
            },
            None => None,
        }
    }
}

fn message(role: &str, content: &str) -> (res: Json)
    ensures
        model_of(res) == JsonValue::Object(
            seq![("role"@, JsonValue::Str(role@)), ("content"@, JsonValue::Str(content@))],
        ),
{
    let mut m: Vec<(String, Json)> = Vec::new();
    push_entry(&mut m, "role", json_str(role));
    push_entry(&mut m, "content", json_str(content));
    assert(entry_models_of(m@) =~= seq![
        ("role"@, JsonValue::Str(role@)),
        ("content"@, JsonValue::Str(content@)),
    ]);
    Json::Object(m)
}

/// The translation request body carries the configured model, languages and
/// thinking flag, asks for streaming, and sends the recognised text unchanged
/// as the one user message.
pub proof fn lemma_translate_payload_fields(
    model: Seq<char>,
    source_lang: Seq<char>,
    target_lang: Seq<char>,
    enable_thinking: bool,
    text: Seq<char>,
)
    ensures
        ({
            let p = translate_payload_spec(model, source_lang, target_lang, enable_thinking, text);
            let options = p.field("translation_options"@);
            let message = then_item(p.field("messages"@), 0);
            &&& p.field("model"@) == Some(JsonValue::Str(model))
            &&& p.field("enable_thinking"@) == Some(JsonValue::Bool(enable_thinking))
            &&& p.field("stream"@) == Some(JsonValue::Bool(true))
            &&& then_field(options, "source_lang"@) == Some(JsonValue::Str(source_lang))
            &&& then_field(options, "target_lang"@) == Some(JsonValue::Str(target_lang))
            &&& then_field(message, "role"@) == Some(JsonValue::Str("user"@))
            &&& then_field(message, "content"@) == Some(JsonValue::Str(text))
        }),
{
    reveal_strlit("model");
    reveal_strlit("messages");
    reveal_strlit("translation_options");
    reveal_strlit("stream");
    reveal_strlit("enable_thinking");
    reveal_strlit("source_lang");
    reveal_strlit("target_lang");
    reveal_strlit("role");
    reveal_strlit("content");
    assert("messages"@.len() != "model"@.len());
    assert("translation_options"@.len() != "model"@.len());
    assert("translation_options"@.len() != "messages"@.len());
    assert("stream"@.len() != "model"@.len());
    assert("stream"@.len() != "messages"@.len());
    assert("stream"@.len() != "translation_options"@.len());
    assert("enable_thinking"@.len() != "model"@.len());
    assert("enable_thinking"@.len() != "messages"@.len());
    assert("enable_thinking"@.len() != "translation_options"@.len());
    assert("enable_thinking"@.len() != "stream"@.len());
    assert("target_lang"@[0] != "source_lang"@[0]);
    assert("content"@.len() != "role"@.len());
    reveal_with_fuel(find_field, 6);
}

/// The optimisation request body carries the configured model, system prompt
/// and thinking flag, asks for streaming, and sends the recognised text
/// between `<text>` tags as the user message after the system message.
pub proof fn lemma_optimize_payload_fields(
    model: Seq<char>,
    system_prompt: Seq<char>,
    enable_thinking: bool,
    text: Seq<char>,
)
    ensures
        ({
            let p = optimize_payload_spec(model, system_prompt, enable_thinking, text);
            let system = then_item(p.field("messages"@), 0);
            let user = then_item(p.field("messages"@), 1);
            &&& p.field("model"@) == Some(JsonValue::Str(model))
            &&& p.field("enable_thinking"@) == Some(JsonValue::Bool(enable_thinking))
            &&& p.field("stream"@) == Some(JsonValue::Bool(true))
            &&& then_field(system, "role"@) == Some(JsonValue::Str("system"@))
            &&& then_field(system, "content"@) == Some(JsonValue::Str(system_prompt))
            &&& then_field(user, "role"@) == Some(JsonValue::Str("user"@))
            &&& then_field(user, "content"@) == Some(
                JsonValue::Str("<text>"@ + text + "</text>"@),
            )
        }),
{
    reveal_strlit("model");
    reveal_strlit("messages");
    reveal_strlit("stream");
    reveal_strlit("enable_thinking");
    reveal_strlit("role");
    reveal_strlit("content");
    assert("messages"@.len() != "model"@.len());
    assert("stream"@.len() != "model"@.len());
    assert("stream"@.len() != "messages"@.len());
    assert("enable_thinking"@.len() != "model"@.len());
    assert("enable_thinking"@.len() != "messages"@.len());
    assert("enable_thinking"@.len() != "stream"@.len());
    assert("content"@.len() != "role"@.len());
    reveal_with_fuel(find_field, 5);
}

/// Apart from the end marker, an event whose JSON carries a non-empty string
/// at `choices[0].delta.content` is forwarded as exactly that string, and an
/// event that carries none (or an empty one) forwards nothing.
pub proof fn lemma_sse_forwards_content_unchanged(data: Seq<char>, doc: JsonValue)
    requires
        data != "[DONE]"@,
    ensures
        ({
            let content = then_field(
                then_field(then_item(doc.field("choices"@), 0), "delta"@),
                "content"@,
            );
            &&& content matches Some(JsonValue::Str(c)) ==> (c.len() > 0 ==> sse_step_spec(
                data,
                Some(doc),
            ) == Some(c)) && (c.len() == 0 ==> sse_step_spec(data, Some(doc)) is None)
            &&& !(content matches Some(JsonValue::Str(_))) ==> sse_step_spec(data, Some(doc)) is None
            &&& sse_step_spec(data, None) is None
        }),
{
}

impl LlmClient {
    /// The body of a streamed request that asks for the recognised text to be
    /// polished.
    pub fn optimize_payload(config: &LlmConfig, final_asr_text: &str) -> (res: Json)
        ensures
            model_of(res) == optimize_payload_spec(
                config.model@,
                config.system_prompt@,
                config.enable_thinking,
                final_asr_text@,
            ),
    {
        let open_tag = concat("<text>", final_asr_text);
        let tagged_input = concat(open_tag.as_str(), "</text>");
        let system = message("system", config.system_prompt.as_str());
        let user = message("user", tagged_input.as_str());
        let ghost m_system = model_of(system);
        let ghost m_user = model_of(user);
        let mut messages: Vec<Json> = Vec::new();
        push_item(&mut messages, system);
        push_item(&mut messages, user);
        assert(models_of(messages@) =~= seq![m_system, m_user]);
        let messages = Json::Array(messages);
        let mut top: Vec<(String, Json)> = Vec::new();
        push_entry(&mut top, "model", json_str(config.model.as_str()));
        push_entry(&mut top, "messages", messages);
        push_entry(&mut top, "stream", Json::Bool(true));
        push_entry(&mut top, "enable_thinking", Json::Bool(config.enable_thinking));
        assert(entry_models_of(top@) =~= seq![
            ("model"@, JsonValue::Str(config.model@)),
            ("messages"@, JsonValue::Array(seq![m_system, m_user])),
            ("stream"@, JsonValue::Bool(true)),
            ("enable_thinking"@, JsonValue::Bool(config.enable_thinking)),
        ]);
        Json::Object(top)
    }

    /// The body of a streamed request that asks for the recognised text to be
    /// translated.
    pub fn translate_payload(config: &TranslationConfig, final_asr_text: &str) -> (res: Json)
        ensures
            model_of(res) == translate_payload_spec(
                config.model@,
                config.source_lang@,
                config.target_lang@,
                config.enable_thinking,
                final_asr_text@,
            ),
    {
        let user = message("user", final_asr_text);
        let ghost m_user = model_of(user);
        let mut messages: Vec<Json> = Vec::new();
        push_item(&mut messages, user);
        assert(models_of(messages@) =~= seq![m_user]);
        let mut options: Vec<(String, Json)> = Vec::new();
        push_entry(&mut options, "source_lang", json_str(config.source_lang.as_str()));
        push_entry(&mut options, "target_lang", json_str(config.target_lang.as_str()));
        let ghost m_options = seq![
            ("source_lang"@, JsonValue::Str(config.source_lang@)),
            ("target_lang"@, JsonValue::Str(config.target_lang@)),
        ];
        assert(entry_models_of(options@) =~= m_options);
        let mut top: Vec<(String, Json)> = Vec::new();
        push_entry(&mut top, "model", json_str(config.model.as_str()));
        push_entry(&mut top, "messages", Json::Array(messages));
        push_entry(&mut top, "translation_options", Json::Object(options));
        push_entry(&mut top, "stream", Json::Bool(true));
        push_entry(&mut top, "enable_thinking", Json::Bool(config.enable_thinking));
        assert(entry_models_of(top@) =~= seq![
            ("model"@, JsonValue::Str(config.model@)),
            ("messages"@, JsonValue::Array(seq![m_user])),
            ("translation_options"@, JsonValue::Object(m_options)),
            ("stream"@, JsonValue::Bool(true)),
            ("enable_thinking"@, JsonValue::Bool(config.enable_thinking)),
        ]);
        Json::Object(top)
    }

    /// The streamed request that carries `payload` to `url` with a bearer
    /// token, or the error for a token that cannot stand in the header.
    pub fn stream_request(url: &str, api_key: &str, payload: Json) -> (res: Result<
        HttpRequest,
        AppError,
    >)
        ensures
            match res {
                Ok(req) => {
                    &&& header_value_ok(bearer_spec(api_key@))
                    &&& req.url@ == url@
                    &&& req.authorization@ == bearer_spec(api_key@)
                    &&& req.body == payload
                },
                Err(AppError::ConfigError(m)) => {
                    &&& !header_value_ok(bearer_spec(api_key@))
                    &&& m@ == "Invalid Header Value: "@ + invalid_header_text()
                },
                Err(_) => false,
            },
    {
        match bearer_authorization(api_key) {
            Ok(authorization) => Ok(HttpRequest { url: url.to_owned(), authorization, body: payload }),
            Err(e) => Err(AppError::ConfigError(concat("Invalid Header Value: ", e.as_str()))),
        }
    }

    /// The streamed optimisation request for the recognised text.
    pub fn optimize_request(config: &LlmConfig, final_asr_text: &str) -> (res: Result<
        HttpRequest,
        AppError,
    >)
        ensures
            match res {
                Ok(req) => {
                    &&& header_value_ok(bearer_spec(config.api_key@))
                    &&& req.url@ == config.api_url@
                    &&& req.authorization@ == bearer_spec(config.api_key@)
                    &&& model_of(req.body) == optimize_payload_spec(
                        config.model@,
                        config.system_prompt@,
                        config.enable_thinking,
                        final_asr_text@,
                    )
                },
                Err(AppError::ConfigError(m)) => {
                    &&& !header_value_ok(bearer_spec(config.api_key@))
                    &&& m@ == "Invalid Header Value: "@ + invalid_header_text()
                },
                Err(_) => false,
            },
    {
        let payload = LlmClient::optimize_payload(config, final_asr_text);
        LlmClient::stream_request(config.api_url.as_str(), config.api_key.as_str(), payload)
    }

    /// The streamed translation request for the recognised text.
    pub fn translate_request(config: &TranslationConfig, final_asr_text: &str) -> (res: Result<
        HttpRequest,
        AppError,
    >)
        ensures
            match res {
                Ok(req) => {
                    &&& header_value_ok(bearer_spec(config.api_key@))
                    &&& req.url@ == config.api_url@
                    &&& req.authorization@ == bearer_spec(config.api_key@)
                    &&& model_of(req.body) == translate_payload_spec(
                        config.model@,
                        config.source_lang@,
                        config.target_lang@,
                        config.enable_thinking,
                        final_asr_text@,
                    )
                },
                Err(AppError::ConfigError(m)) => {
                    &&& !header_value_ok(bearer_spec(config.api_key@))
                    &&& m@ == "Invalid Header Value: "@ + invalid_header_text()
                },
                Err(_) => false,
            },
    {
        let payload = LlmClient::translate_payload(config, final_asr_text);
        LlmClient::stream_request(config.api_url.as_str(), config.api_key.as_str(), payload)
    }

    /// Decides what one server-sent event calls for, given its data and that
    /// data parsed as JSON (`None` when it is not JSON): the `[DONE]` marker
    /// ends the stream, a non-empty `choices[0].delta.content` is forwarded,
    /// anything else is passed over.
    pub fn sse_step(data: &str, parsed: &Option<Json>) -> (res: SseStep)
        ensures
            data@ == "[DONE]"@ <==> res is Finish,
            match sse_step_spec(
                data@,
                match parsed {
                    Some(doc) => Some(model_of(*doc)),
                    None => None,
                },
            ) {
                Some(c) => res matches SseStep::Emit(t) && t@ == c,
                None => !(res is Emit),
            },
    {
        let done = "[DONE]".to_owned();
        let d = data.to_owned();
        if d == done {
            return SseStep::Finish;
        }
        match parsed {
            Some(doc) => {
                if let Some(choices) = doc.get("choices") {
                    if let Some(choice) = choices.at(0) {
                        if let Some(delta) = choice.get("delta") {
                            if let Some(content) = delta.get("content") {
                                if let Some(c) = content.as_str() {
                                    if !c.is_empty() {
                                        return SseStep::Emit(c.to_owned());
                                    }
                                }
                            }
                        }
                    }
                }
                SseStep::Skip
            },
            None => SseStep::Skip,
        }
    }
}

} // verus!
