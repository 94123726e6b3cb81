//! Speech recognition requests: WAV framing of recorded PCM, the request body,
//! and reading the transcript out of the response.
use vstd::prelude::*;
use base64::Engine;
use crate::config::AsrConfig;
use crate::error::AppError;
use crate::json::{
    find_field, entry_models_of, models_of, model_of, push_entry, push_item, json_str, then_field, then_item, then_text, Json, JsonValue,
};
use crate::network::{bearer_authorization, bearer_spec, header_value_ok, invalid_header_text, HttpRequest};
use crate::text::{concat, trim, trim_spec};

verus! {

/// The four little-endian bytes of `x`.
pub open spec fn le32(x: nat) -> Seq<u8> {
    seq![(x % 256) as u8, ((x / 256) % 256) as u8, ((x / 65536) % 256) as u8, ((x / 16777216) % 256) as u8]
}

/// The two little-endian bytes of `x`.
pub open spec fn le16(x: nat) -> Seq<u8> {
    seq![(x % 256) as u8, ((x / 256) % 256) as u8]
}

/// The number that four little-endian bytes encode.
pub open spec fn le32_value(b: Seq<u8>) -> nat {
    b[0] as nat + 256 * (b[1] as nat) + 65536 * (b[2] as nat) + 16777216 * (b[3] as nat)
}

/// The 44-byte header of a 16 kHz, mono, 16-bit PCM WAV file whose sample data
/// is `data_len` bytes long.
pub open spec fn wav_header(data_len: nat) -> Seq<u8> {
    seq![82u8, 73, 70, 70]  // "RIFF"
     + le32(data_len + 36) + seq![87u8, 65, 86, 69]  // "WAVE"
     + seq![102u8, 109, 116, 32]  // "fmt "
     + le32(16) + le16(1) + le16(1) + le32(16000) + le32(32000) + le16(2) + le16(16) + seq![
        100u8,
        97,
        116,
        97,
    ]  // "data"
     + le32(data_len)
}

/// The WAV file that holds `pcm` as 16 kHz, mono, 16-bit samples.
pub open spec fn wav_spec(pcm: Seq<u8>) -> Seq<u8> {
    wav_header(pcm.len()) + pcm
}

/// Standard base64 (RFC 4648 alphabet, with padding) of `data`, as
/// `base64::engine::general_purpose::STANDARD` encodes it.
pub uninterp spec fn base64_standard(data: Seq<u8>) -> Seq<char>;

/// Encodes `data` with `base64::engine::general_purpose::STANDARD`; the contract
/// only ties the result to the encoder's named result for `data`.
#[verifier::external_body]
fn base64_encode(data: &[u8]) -> (res: String)
    ensures
        res@ == base64_standard(data@),
{
    base64::engine::general_purpose::STANDARD.encode(data)
}

proof fn lemma_le32_value(x: nat)
    requires
        x < 0x1_0000_0000,
    ensures
        le32(x).len() == 4,
        le32_value(le32(x)) == x,
{
    let b = le32(x);
    assert(b[0] as nat == x % 256);
    assert(b[1] as nat == (x / 256) % 256);
    assert(b[2] as nat == (x / 65536) % 256);
    assert(b[3] as nat == (x / 16777216) % 256);
    assert(x % 256 + 256 * ((x / 256) % 256) + 65536 * ((x / 65536) % 256) + 16777216 * ((x
        / 16777216) % 256) == x) by (nonlinear_arith)
        requires
            x < 0x1_0000_0000,
    ;
}

/// The facts about a WAV file that a reader relies on: its length, the two
/// size fields and where the samples begin.
pub proof fn lemma_wav_layout(pcm: Seq<u8>)
    requires
        pcm.len() + 36 <= u32::MAX,
    ensures
        wav_spec(pcm).len() == 44 + pcm.len(),
        le32_value(wav_spec(pcm).subrange(4, 8)) == pcm.len() + 36,
        le32_value(wav_spec(pcm).subrange(40, 44)) == pcm.len(),
        wav_spec(pcm).subrange(44, 44 + pcm.len() as int) == pcm,
{
    let w = wav_spec(pcm);
    lemma_le32_value(pcm.len() + 36);
    lemma_le32_value(pcm.len());
    assert(w.subrange(4, 8) =~= le32(pcm.len() + 36));
    assert(w.subrange(40, 44) =~= le32(pcm.len()));
    assert(w.subrange(44, 44 + pcm.len() as int) =~= pcm);
}

/// The number that two little-endian bytes encode.
pub open spec fn le16_value(b: Seq<u8>) -> nat {
    b[0] as nat + 256 * (b[1] as nat)
}

/// The fixed fields of the header: the `RIFF`, `WAVE`, `fmt ` and `data`
/// tags, and a format chunk of 16 bytes describing uncompressed PCM with one
/// channel at 16000 samples per second, 32000 bytes per second, 2 bytes per
/// sample frame and 16 bits per sample.
pub proof fn lemma_wav_format_fields(pcm: Seq<u8>)
    ensures
        ({
            let w = wav_spec(pcm);
            &&& w.subrange(0, 4) == seq![82u8, 73, 70, 70]
            &&& w.subrange(8, 12) == seq![87u8, 65, 86, 69]
            &&& w.subrange(12, 16) == seq![102u8, 109, 116, 32]
            &&& le32_value(w.subrange(16, 20)) == 16
            &&& le16_value(w.subrange(20, 22)) == 1
            &&& le16_value(w.subrange(22, 24)) == 1
            &&& le32_value(w.subrange(24, 28)) == 16000
            &&& le32_value(w.subrange(28, 32)) == 32000
            &&& le16_value(w.subrange(32, 34)) == 2
            &&& le16_value(w.subrange(34, 36)) == 16
            &&& w.subrange(36, 40) == seq![100u8, 97, 116, 97]
        }),
{
    let w = wav_spec(pcm);
    lemma_le32_value(16);
    lemma_le32_value(16000);
    lemma_le32_value(32000);
    assert(w.subrange(0, 4) =~= seq![82u8, 73, 70, 70]);
    assert(w.subrange(8, 12) =~= seq![87u8, 65, 86, 69]);
    assert(w.subrange(12, 16) =~= seq![102u8, 109, 116, 32]);
    assert(w.subrange(16, 20) =~= le32(16));
    assert(w.subrange(20, 22) =~= le16(1));
    assert(w.subrange(22, 24) =~= le16(1));
    assert(w.subrange(24, 28) =~= le32(16000));
    assert(w.subrange(28, 32) =~= le32(32000));
    assert(w.subrange(32, 34) =~= le16(2));
    assert(w.subrange(34, 36) =~= le16(16));
    assert(w.subrange(36, 40) =~= seq![100u8, 97, 116, 97]);
}

fn push_le32(v: &mut Vec<u8>, x: u32)
    ensures
        final(v)@ == old(v)@ + le32(x as nat),
{
    v.push((x % 256) as u8);
    v.push(((x / 256) % 256) as u8);
    v.push(((x / 65536) % 256) as u8);
    v.push(((x / 16777216) % 256) as u8);
    assert(final(v)@ =~= old(v)@ + le32(x as nat));
}

fn push_le16(v: &mut Vec<u8>, x: u16)
    ensures
        final(v)@ == old(v)@ + le16(x as nat),
{
    v.push((x % 256) as u8);
    v.push(((x / 256) % 256) as u8);
    assert(final(v)@ =~= old(v)@ + le16(x as nat));
}

fn push_tag(v: &mut Vec<u8>, a: u8, b: u8, c: u8, d: u8)
    ensures
        final(v)@ == old(v)@ + seq![a, b, c, d],
{
    v.push(a);
    v.push(b);
    v.push(c);
    v.push(d);
    assert(final(v)@ =~= old(v)@ + seq![a, b, c, d]);
}

/// Speech recognition over an OpenAI-compatible chat completions endpoint.
pub struct AsrHttpClient;

/// The body of a transcription request for audio given as a data URI.
pub open spec fn asr_payload_spec(model: Seq<char>, data_uri: Seq<char>) -> JsonValue {
    JsonValue::Object(
        seq![
            ("model"@, JsonValue::Str(model)),
            (
                "messages"@,
                JsonValue::Array(
                    seq![
                        JsonValue::Object(
                            seq![
                                ("role"@, JsonValue::Str("user"@)),
                                (
                                    "content"@,
                                    JsonValue::Array(
                                        seq![
                                            JsonValue::Object(
                                                seq![
                                                    ("type"@, JsonValue::Str("input_audio"@)),
                                                    (
                                                        "input_audio"@,
                                                        JsonValue::Object(
                                                            seq![
                                                                ("data"@, JsonValue::Str(data_uri)),
                                                                (
                                                                    "format"@,
                                                                    JsonValue::Str("wav"@),
                                                                ),
                                                            ],
                                                        ),
                                                    ),
                                                ],
                                            ),
                                        ],
                                    ),
                                ),
                            ],
                        ),
                    ],
                ),
            ),
        ],
    )
}

/// The data URI of a base64-encoded WAV file.
pub open spec fn wav_data_uri_spec(b64: Seq<char>) -> Seq<char> {
    "data:audio/wav;base64,"@ + b64
}

/// The transcript in a parsed recognition response: the trimmed text at
/// `choices[0].message.content`, or the empty text when there is none.
pub open spec fn transcript_spec(doc: JsonValue) -> Seq<char> {
    match then_text(
        then_field(then_field(then_item(doc.field("choices"@), 0), "message"@), "content"@),
    ) {
        Some(t) => trim_spec(t),
        None => Seq::empty(),
    }
}

/// The transcription request body names the configured model and carries
/// the audio, unchanged, as the data of one `input_audio` part of one user
/// message, in WAV format.
pub proof fn lemma_asr_payload_fields(model: Seq<char>, data_uri: Seq<char>)
    ensures
        ({
            let p = asr_payload_spec(model, data_uri);
            let message = then_item(p.field("messages"@), 0);
            let part = then_item(then_field(message, "content"@), 0);
            let audio = then_field(part, "input_audio"@);
            &&& p.field("model"@) == Some(JsonValue::Str(model))
            &&& then_field(message, "role"@) == Some(JsonValue::Str("user"@))
            &&& then_field(part, "type"@) == Some(JsonValue::Str("input_audio"@))
            &&& then_field(audio, "data"@) == Some(JsonValue::Str(data_uri))
            &&& then_field(audio, "format"@) == Some(JsonValue::Str("wav"@))
        }),
{
    reveal_strlit("model");
    reveal_strlit("messages");
    reveal_strlit("role");
    reveal_strlit("content");
    reveal_strlit("type");
    reveal_strlit("input_audio");
    reveal_strlit("data");
    reveal_strlit("format");
    assert("messages"@.len() != "model"@.len());
    assert("content"@.len() != "role"@.len());
    assert("input_audio"@.len() != "type"@.len());
    assert("format"@.len() != "data"@.len());
    reveal_with_fuel(find_field, 3);
}

/// The transcript is the response's `choices[0].message.content` text with
/// only its surrounding white space removed; a response without that text
/// has an empty transcript.
pub proof fn lemma_transcript_is_trimmed_content(doc: JsonValue)
    ensures
        ({
            let content = then_field(
                then_field(then_item(doc.field("choices"@), 0), "message"@),
                "content"@,
            );
            &&& content matches Some(JsonValue::Str(c)) ==> transcript_spec(doc) == trim_spec(c)
            &&& !(content matches Some(JsonValue::Str(_))) ==> transcript_spec(doc).len() == 0
        }),
{
}

impl AsrHttpClient {
    /// Wraps raw PCM data (16 kHz, mono, 16-bit little-endian) in a standard
    /// 44-byte WAV header.
    pub fn pcm_to_wav(pcm_data: &[u8]) -> (res: Vec<u8>)
        requires
            pcm_data@.len() + 36 <= u32::MAX,
        ensures
            res@ == wav_spec(pcm_data@),
    {
        let data_len = pcm_data.len() as u32;
        let file_len = data_len + 36;
        let sample_rate: u32 = 16000;
        let num_channels: u16 = 1;
        let bits_per_sample: u16 = 16;
        // sample_rate * num_channels * bits_per_sample / 8
        let byte_rate: u32 = 32000;
        // num_channels * bits_per_sample / 8
        let block_align: u16 = 2;

        let mut wav: Vec<u8> = Vec::new();
        push_tag(&mut wav, 82, 73, 70, 70);
        push_le32(&mut wav, file_len);
        push_tag(&mut wav, 87, 65, 86, 69);
        push_tag(&mut wav, 102, 109, 116, 32);
        push_le32(&mut wav, 16);
        push_le16(&mut wav, 1);
        push_le16(&mut wav, num_channels);
        push_le32(&mut wav, sample_rate);
        push_le32(&mut wav, byte_rate);
        push_le16(&mut wav, block_align);
        push_le16(&mut wav, bits_per_sample);
        push_tag(&mut wav, 100, 97, 116, 97);
        push_le32(&mut wav, data_len);
        assert(wav@ =~= wav_header(pcm_data@.len()));
        wav.extend_from_slice(pcm_data);
        wav
    }

    /// The data URI that carries base64-encoded WAV data.
    pub fn wav_data_uri(b64: &str) -> (res: String)
        ensures
            res@ == wav_data_uri_spec(b64@),
    {
        concat("data:audio/wav;base64,", b64)
    }

    /// The body of a transcription request for audio given as a data URI.
    pub fn payload(config: &AsrConfig, data_uri: &str) -> (res: Json)
        ensures
            model_of(res) == asr_payload_spec(config.model@, data_uri@),
    {
        let mut input_audio: Vec<(String, Json)> = Vec::new();
        push_entry(&mut input_audio, "data", json_str(data_uri));
        push_entry(&mut input_audio, "format", json_str("wav"));
        assert(entry_models_of(input_audio@) =~= seq![
            ("data"@, JsonValue::Str(data_uri@)),
            ("format"@, JsonValue::Str("wav"@)),
        ]);
        let input_audio = Json::Object(input_audio);
        let ghost m_input_audio = JsonValue::Object(
            seq![("data"@, JsonValue::Str(data_uri@)), ("format"@, JsonValue::Str("wav"@))],
        );
        assert(model_of(input_audio) == m_input_audio);
        let mut part: Vec<(String, Json)> = Vec::new();
        push_entry(&mut part, "type", json_str("input_audio"));
        push_entry(&mut part, "input_audio", input_audio);
        assert(entry_models_of(part@) =~= seq![
            ("type"@, JsonValue::Str("input_audio"@)),
            ("input_audio"@, m_input_audio),
        ]);
        let part = Json::Object(part);
        let ghost m_part = JsonValue::Object(
            seq![("type"@, JsonValue::Str("input_audio"@)), ("input_audio"@, m_input_audio)],
        );
        assert(model_of(part) == m_part);
        let mut content: Vec<Json> = Vec::new();
        push_item(&mut content, part);
        assert(models_of(content@) =~= seq![m_part]);
        let content = Json::Array(content);
        assert(model_of(content) == JsonValue::Array(seq![m_part]));
        let mut message: Vec<(String, Json)> = Vec::new();
        push_entry(&mut message, "role", json_str("user"));
        push_entry(&mut message, "content", content);
        assert(entry_models_of(message@) =~= seq![
            ("role"@, JsonValue::Str("user"@)),
            ("content"@, JsonValue::Array(seq![m_part])),
        ]);
        let message = Json::Object(message);
        let ghost m_message = JsonValue::Object(
            seq![("role"@, JsonValue::Str("user"@)), ("content"@, JsonValue::Array(seq![m_part]))],
        );
        assert(model_of(message) == m_message);
        let mut messages: Vec<Json> = Vec::new();
        push_item(&mut messages, message);
        assert(models_of(messages@) =~= seq![m_message]);
        let messages = Json::Array(messages);
        assert(model_of(messages) == JsonValue::Array(seq![m_message]));
        let mut top: Vec<(String, Json)> = Vec::new();
        push_entry(&mut top, "model", json_str(config.model.as_str()));
        push_entry(&mut top, "messages", messages);
        assert(entry_models_of(top@) =~= seq![
            ("model"@, JsonValue::Str(config.model@)),
            ("messages"@, JsonValue::Array(seq![m_message])),
        ]);
        let res = Json::Object(top);
        assert(model_of(res) == asr_payload_spec(config.model@, data_uri@));
        res
    }

    /// The transcription request for base64-encoded WAV data, or the error for
    /// an API key that cannot stand in the `Authorization` header.
    pub fn request_for_audio(config: &AsrConfig, wav_base64: &str) -> (res: Result<
        HttpRequest,
        AppError,
    >)
        ensures
            match res {
                Ok(req) => {
                    &&& header_value_ok(bearer_spec(config.api_key@))
                    &&& req.url@ == config.api_url@
                    &&& req.authorization@ == bearer_spec(config.api_key@)
                    &&& model_of(req.body) == asr_payload_spec(
                        config.model@,
                        wav_data_uri_spec(wav_base64@),
                    )
                },
                Err(AppError::ConfigError(m)) => {
                    &&& !header_value_ok(bearer_spec(config.api_key@))
                    &&& m@ == "Invalid API key: "@ + invalid_header_text()
                },
                Err(_) => false,
            },
    {
        let uri = AsrHttpClient::wav_data_uri(wav_base64);
        let body = AsrHttpClient::payload(config, uri.as_str());
        match bearer_authorization(config.api_key.as_str()) {
            Ok(authorization) => Ok(
                HttpRequest { url: config.api_url.clone(), authorization, body },
            ),
            Err(e) => Err(AppError::ConfigError(concat("Invalid API key: ", e.as_str()))),
        }
    }

    /// The transcription request for recorded PCM data: empty audio is refused,
    /// otherwise the audio travels as a base64 WAV data URI.
    pub fn build_request(config: &AsrConfig, pcm_data: &[u8]) -> (res: Result<
        HttpRequest,
        AppError,
    >)
        requires
            pcm_data@.len() + 36 <= u32::MAX,
        ensures
            match res {
                Ok(req) => {
                    &&& pcm_data@.len() > 0
                    &&& header_value_ok(bearer_spec(config.api_key@))
                    &&& req.url@ == config.api_url@
                    &&& req.authorization@ == bearer_spec(config.api_key@)
                    &&& model_of(req.body) == asr_payload_spec(
                        config.model@,
                        wav_data_uri_spec(base64_standard(wav_spec(pcm_data@))),
                    )
                },
                Err(AppError::InternalError(m)) => {
                    &&& pcm_data@.len() == 0
                    &&& m@ == "No audio data to transcribe"@
                },
                Err(AppError::ConfigError(m)) => {
                    &&& pcm_data@.len() > 0
                    &&& !header_value_ok(bearer_spec(config.api_key@))
                    &&& m@ == "Invalid API key: "@ + invalid_header_text()
                },
                Err(_) => false,
            },
    {
        if pcm_data.len() == 0 {
            return Err(AppError::InternalError("No audio data to transcribe".to_owned()));
        }
        let wav = AsrHttpClient::pcm_to_wav(pcm_data);
        let b64 = base64_encode(wav.as_slice());
        AsrHttpClient::request_for_audio(config, b64.as_str())
    }

    /// The transcript in a recognition response, given the outcome of parsing
    /// the response body as JSON (the parser's error text on failure).
    pub fn transcript_from(parsed: &Result<Json, String>) -> (res: Result<String, AppError>)
        ensures
            match parsed {
                Err(e) => res matches Err(AppError::InternalError(m)) && m@
                    == "Failed to parse ASR response: "@ + e@,
                Ok(doc) => if transcript_spec(model_of(*doc)).len() == 0 {
                    res matches Err(AppError::InternalError(m)) && m@
                        == "ASR returned no transcription"@
                } else {
                    res matches Ok(t) && t@ == transcript_spec(model_of(*doc))
                },
            },
    {
        match parsed {
            Err(e) => Err(
                AppError::InternalError(concat("Failed to parse ASR response: ", e.as_str())),
            ),
            Ok(doc) => {
                let mut text = String::new();
                if let Some(choices) = doc.get("choices") {
                    if let Some(first) = choices.at(0) {
                        if let Some(message) = first.get("message") {
                            if let Some(content) = message.get("content") {
                                if let Some(s) = content.as_str() {
                                    text = trim(s);
                                }
                            }
                        }
                    }
                }
                if text.as_str().is_empty() {
                    Err(AppError::InternalError("ASR returned no transcription".to_owned()))
                } else {
                    Ok(text)
                }
            },
        }
    }
}

} // verus!
