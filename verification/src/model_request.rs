//! The request bodies sent to a text model: the extraction request and the
//! judge requests, in the shape each model API expects. Which API an
//! endpoint speaks is decided from its path by the caller.
use vstd::prelude::*;
use crate::json::{shallow_entries, JsonNumber, JsonShallow, JsonValue};
use crate::score::Score;
use crate::text::{decimal_nat, is_blank, owned, push_decimal, str_eq, str_is_blank, trim, trim_str};

verus! {

/// The model APIs a request can be shaped for.
#[derive(Debug, Clone, Copy, PartialEq, Eq, Structural)]
pub enum ModelApi {
    /// Gemini `generateContent`.
    GeminiGenerateContent,
    /// Anthropic messages.
    AnthropicMessages,
    /// OpenAI responses.
    Responses,
    /// Chat completions, the default.
    ChatCompletions,
}

/// The system prompt of extraction.
pub open spec fn extraction_system_prompt_spec() -> Seq<char> {
    "你是小说人物信息抽取 agent。从章节片段中抽取结构化 observations。\n不要输出 Markdown，不要输出解释，只输出严格 JSON 数组。"@
}

/// The system prompt of extraction.
pub fn extraction_system_prompt() -> (r: &'static str)
    ensures
        r@ == extraction_system_prompt_spec(),
{
    "你是小说人物信息抽取 agent。从章节片段中抽取结构化 observations。\n不要输出 Markdown，不要输出解释，只输出严格 JSON 数组。"
}

/// The system prompt of the identity judge.
pub open spec fn identity_judge_system_prompt_spec() -> Seq<char> {
    "你是小说人物身份判断 agent。判断两个人物是否为同一真实人物。不要输出 Markdown，不要输出解释，只输出严格 JSON 对象。"@
}

/// The system prompt of the identity judge.
pub fn identity_judge_system_prompt() -> (r: &'static str)
    ensures
        r@ == identity_judge_system_prompt_spec(),
{
    "你是小说人物身份判断 agent。判断两个人物是否为同一真实人物。不要输出 Markdown，不要输出解释，只输出严格 JSON 对象。"
}

/// The sampling temperature of every request, `0.2`.
pub open spec fn temperature() -> JsonNumber {
    JsonNumber { value: Score { key: 0x3FC9_9999_9999_999A }, integer: None }
}

/// An integer JSON number whose value key is `key`.
pub open spec fn integer_number(n: i64, key: i64) -> JsonNumber {
    JsonNumber { value: Score { key }, integer: Some(n) }
}

/// The output token limit of extraction, `8192`.
pub open spec fn extraction_tokens() -> JsonNumber {
    integer_number(8192, 0x40C0_0000_0000_0000)
}

/// The output token limit of a judge, `4096`.
pub open spec fn judge_tokens() -> JsonNumber {
    integer_number(4096, 0x40B0_0000_0000_0000)
}

/// Whether `v` is an object whose members, in order, are `es`.
pub open spec fn is_object(v: JsonValue, es: Seq<(Seq<char>, JsonShallow)>) -> bool {
    v matches JsonValue::Object(m) && shallow_entries(m@) == es
}

/// Whether `v` is a message `{"role": role, "content": content}`.
pub open spec fn is_message(v: JsonValue, role: Seq<char>, content: Seq<char>) -> bool {
    is_object(v, seq![("role"@, JsonShallow::Str(role)), ("content"@, JsonShallow::Str(content))])
}

/// Whether `v` is `[{"text": text}]`.
pub open spec fn is_text_list(v: JsonValue, text: Seq<char>) -> bool {
    match v {
        JsonValue::Array(items) => items@.len() == 1 && is_object(items@[0], seq![("text"@, JsonShallow::Str(text))]),
        _ => false,
    }
}

/// Whether `v` is `{"parts": [{"text": text}]}`.
pub open spec fn is_parts(v: JsonValue, text: Seq<char>) -> bool {
    match v {
        JsonValue::Object(m) => m@.len() == 1 && m@[0].0@ == "parts"@ && is_text_list(m@[0].1, text),
        _ => false,
    }
}

/// Whether `v` is `[{"role": "user", "parts": [{"text": prompt}]}]`.
pub open spec fn is_user_contents(v: JsonValue, prompt: Seq<char>) -> bool {
    match v {
        JsonValue::Array(cs) => cs@.len() == 1 && match cs@[0] {
            JsonValue::Object(c) => c@.len() == 2 && named(c@, 0, "role"@) && is_text(c@[0].1, "user"@) && named(
                c@,
                1,
                "parts"@,
            ) && is_text_list(c@[1].1, prompt),
            _ => false,
        },
        _ => false,
    }
}

/// Whether `v` is the list of messages `msgs`, each a role and a content.
pub open spec fn is_messages(v: JsonValue, msgs: Seq<(Seq<char>, Seq<char>)>) -> bool {
    match v {
        JsonValue::Array(items) => items@.len() == msgs.len() && forall|i: int|
            0 <= i < msgs.len() ==> is_message(#[trigger] items@[i], msgs[i].0, msgs[i].1),
        _ => false,
    }
}

/// Whether `v` is `{"format": {"type": "json_object"}}`.
pub open spec fn is_json_format(v: JsonValue) -> bool {
    match v {
        JsonValue::Object(t) => t@.len() == 1 && named(t@, 0, "format"@) && is_object(
            t@[0].1,
            seq![("type"@, JsonShallow::Str("json_object"@))],
        ),
        _ => false,
    }
}

/// Whether `v` is the string `text`.
pub open spec fn is_text(v: JsonValue, text: Seq<char>) -> bool {
    v matches JsonValue::Str(t) && t@ == text
}

/// Whether member `i` of `m` is named `key`.
pub open spec fn named(m: Seq<(String, JsonValue)>, i: int, key: Seq<char>) -> bool {
    m[i].0@ == key
}

/// Whether `v` is the request body for `api` with `system` and `prompt`;
/// `tokens` is the output token limit, and `extraction` whether it is the
/// extraction request (whose chat-completions body sets a token limit where
/// a judge's asks for a JSON object).
pub open spec fn is_request_body(
    v: JsonValue,
    api: ModelApi,
    model: Seq<char>,
    system: Seq<char>,
    prompt: Seq<char>,
    tokens: JsonNumber,
    extraction: bool,
) -> bool {
    v matches JsonValue::Object(m) && match api {
        ModelApi::GeminiGenerateContent => {
            &&& m@.len() == 3
            &&& named(m@, 0, "contents"@) && is_user_contents(m@[0].1, prompt)
            &&& named(m@, 1, "systemInstruction"@) && is_parts(m@[1].1, system)
            &&& named(m@, 2, "generationConfig"@) && is_object(
                m@[2].1,
                seq![
                    ("temperature"@, JsonShallow::Number(temperature())),
                    ("maxOutputTokens"@, JsonShallow::Number(tokens)),
                    ("responseMimeType"@, JsonShallow::Str("application/json"@)),
                ],
            )
        },
        ModelApi::AnthropicMessages => {
            &&& m@.len() == 5
            &&& named(m@, 0, "model"@) && is_text(m@[0].1, model)
            &&& named(m@, 1, "max_tokens"@) && m@[1].1 == JsonValue::Number(tokens)
            &&& named(m@, 2, "temperature"@) && m@[2].1 == JsonValue::Number(temperature())
            &&& named(m@, 3, "system"@) && is_text(m@[3].1, system)
            &&& named(m@, 4, "messages"@) && is_messages(m@[4].1, seq![("user"@, prompt)])
        },
        ModelApi::Responses => {
            &&& m@.len() == 6
            &&& named(m@, 0, "model"@) && is_text(m@[0].1, model)
            &&& named(m@, 1, "temperature"@) && m@[1].1 == JsonValue::Number(temperature())
            &&& named(m@, 2, "max_output_tokens"@) && m@[2].1 == JsonValue::Number(tokens)
            &&& named(m@, 3, "stream"@) && m@[3].1 == JsonValue::Bool(false)
            &&& named(m@, 4, "text"@) && is_json_format(m@[4].1)
            &&& named(m@, 5, "input"@) && is_messages(m@[5].1, seq![("system"@, system), ("user"@, prompt)])
        },
        ModelApi::ChatCompletions => {
            &&& m@.len() == 4
            &&& named(m@, 0, "model"@) && is_text(m@[0].1, model)
            &&& named(m@, 1, "temperature"@) && m@[1].1 == JsonValue::Number(temperature())
            &&& if extraction {
                named(m@, 2, "max_tokens"@) && m@[2].1 == JsonValue::Number(tokens)
            } else {
                named(m@, 2, "response_format"@) && is_object(m@[2].1, seq![("type"@, JsonShallow::Str("json_object"@))])
            }
            &&& named(m@, 3, "messages"@) && is_messages(m@[3].1, seq![("system"@, system), ("user"@, prompt)])
        },
    }
}

fn text(s: &str) -> (r: JsonValue)
    ensures
        is_text(r, s@),
{
    JsonValue::Str(owned(s))
}

fn member(key: &str, value: JsonValue) -> (r: (String, JsonValue))
    ensures
        r.0@ == key@,
        r.1 == value,
{
    (owned(key), value)
}

fn message(role: &str, content: &str) -> (r: JsonValue)
    ensures
        is_message(r, role@, content@),
{
    let mut m: Vec<(String, JsonValue)> = Vec::new();
    m.push(member("role", text(role)));
    m.push(member("content", text(content)));
    assert(shallow_entries(m@) =~= seq![("role"@, JsonShallow::Str(role@)), ("content"@, JsonShallow::Str(content@))]);
    JsonValue::Object(m)
}

fn single_text_object(key: &str, value: &str) -> (r: JsonValue)
    ensures
        is_object(r, seq![(key@, JsonShallow::Str(value@))]),
{
    let mut m: Vec<(String, JsonValue)> = Vec::new();
    m.push(member(key, text(value)));
    assert(shallow_entries(m@) =~= seq![(key@, JsonShallow::Str(value@))]);
    JsonValue::Object(m)
}

fn temperature_value() -> (r: JsonValue)
    ensures
        r == JsonValue::Number(temperature()),
{
    JsonValue::Number(JsonNumber { value: Score { key: 0x3FC9_9999_9999_999A }, integer: None })
}

fn tokens_value(extraction: bool) -> (r: JsonValue)
    ensures
        r == JsonValue::Number(if extraction { extraction_tokens() } else { judge_tokens() }),
{
    if extraction {
        JsonValue::Number(JsonNumber { value: Score { key: 0x40C0_0000_0000_0000 }, integer: Some(8192) })
    } else {
        JsonValue::Number(JsonNumber { value: Score { key: 0x40B0_0000_0000_0000 }, integer: Some(4096) })
    }
}

/// The request body for `api`: the extraction request when `extraction`,
/// else a judge request.
pub fn request_body(api: ModelApi, model: &str, system: &str, prompt: &str, extraction: bool) -> (r: JsonValue)
    ensures
        is_request_body(
            r,
            api,
            model@,
            system@,
            prompt@,
            if extraction { extraction_tokens() } else { judge_tokens() },
            extraction,
        ),
{
    let mut m: Vec<(String, JsonValue)> = Vec::new();
    match api {
        ModelApi::GeminiGenerateContent => {
            let mut parts: Vec<JsonValue> = Vec::new();
            parts.push(single_text_object("text", prompt));
            let mut c: Vec<(String, JsonValue)> = Vec::new();
            c.push(member("role", text("user")));
            c.push(member("parts", JsonValue::Array(parts)));
            let mut contents: Vec<JsonValue> = Vec::new();
            contents.push(JsonValue::Object(c));
            m.push(member("contents", JsonValue::Array(contents)));
            let mut sys_parts: Vec<JsonValue> = Vec::new();
            sys_parts.push(single_text_object("text", system));
            let mut si: Vec<(String, JsonValue)> = Vec::new();
            si.push(member("parts", JsonValue::Array(sys_parts)));
            m.push(member("systemInstruction", JsonValue::Object(si)));
            let mut g: Vec<(String, JsonValue)> = Vec::new();
            g.push(member("temperature", temperature_value()));
            g.push(member("maxOutputTokens", tokens_value(extraction)));
            g.push(member("responseMimeType", text("application/json")));
            assert(shallow_entries(g@) =~= seq![
                ("temperature"@, JsonShallow::Number(temperature())),
                ("maxOutputTokens"@, JsonShallow::Number(if extraction { extraction_tokens() } else { judge_tokens() })),
                ("responseMimeType"@, JsonShallow::Str("application/json"@)),
            ]);
            m.push(member("generationConfig", JsonValue::Object(g)));
        },
        ModelApi::AnthropicMessages => {
            m.push(member("model", text(model)));
            m.push(member("max_tokens", tokens_value(extraction)));
            m.push(member("temperature", temperature_value()));
            m.push(member("system", text(system)));
            let mut ms: Vec<JsonValue> = Vec::new();
            ms.push(message("user", prompt));
            m.push(member("messages", JsonValue::Array(ms)));
        },
        ModelApi::Responses => {
            m.push(member("model", text(model)));
            m.push(member("temperature", temperature_value()));
            m.push(member("max_output_tokens", tokens_value(extraction)));
            m.push(member("stream", JsonValue::Bool(false)));
            let mut t: Vec<(String, JsonValue)> = Vec::new();
            t.push(member("format", single_text_object("type", "json_object")));
            m.push(member("text", JsonValue::Object(t)));
            let mut ms: Vec<JsonValue> = Vec::new();
            ms.push(message("system", system));
            ms.push(message("user", prompt));
            m.push(member("input", JsonValue::Array(ms)));
        },
        ModelApi::ChatCompletions => {
            m.push(member("model", text(model)));
            m.push(member("temperature", temperature_value()));
            if extraction {
                m.push(member("max_tokens", tokens_value(extraction)));
            } else {
                m.push(member("response_format", single_text_object("type", "json_object")));
            }
            let mut ms: Vec<JsonValue> = Vec::new();
            ms.push(message("system", system));
            ms.push(message("user", prompt));
            m.push(member("messages", JsonValue::Array(ms)));
        },
    }
    JsonValue::Object(m)
}

/// The path a request goes to: the endpoint's path, trimmed, or the chat
/// completions path when it has none.
pub fn request_path(path: &str) -> (r: String)
    ensures
        r@ == if is_blank(path@) {
            "/v1/chat/completions"@
        } else {
            trim(path@)
        },
{
    if str_is_blank(path) {
        owned("/v1/chat/completions")
    } else {
        trim_str(path)
    }
}

/// How a request carries the endpoint's API key.
#[derive(Debug, Clone, PartialEq, Eq)]
pub enum ApiKeyHeader {
    /// No key is sent.
    NoKey,
    /// The key goes in an `x-goog-api-key` header.
    GoogApiKey(String),
    /// The key goes as a bearer token.
    Bearer(String),
}

/// Whether a request is a Gemini call to Google's own host, which takes the
/// key in its own header.
pub open spec fn google_gemini(api: ModelApi, host: Option<Seq<char>>) -> bool {
    api == ModelApi::GeminiGenerateContent && host == Some("generativelanguage.googleapis.com"@)
}

/// How the API key `key` is sent: not at all when blank; trimmed, in
/// Google's header for a Gemini call to Google's host, else as a bearer token.
pub open spec fn header_ok(r: ApiKeyHeader, api: ModelApi, host: Option<Seq<char>>, key: Seq<char>) -> bool {
    if is_blank(key) {
        r == ApiKeyHeader::NoKey
    } else if google_gemini(api, host) {
        r matches ApiKeyHeader::GoogApiKey(k) && k@ == trim(key)
    } else {
        r matches ApiKeyHeader::Bearer(k) && k@ == trim(key)
    }
}

/// How the endpoint's API key is sent with a request to `host`.
pub fn api_key_header(api: ModelApi, host: Option<&str>, api_key: &str) -> (r: ApiKeyHeader)
    ensures
        header_ok(
            r,
            api,
            match host {
                Some(h) => Some(h@),
                None => None,
            },
            api_key@,
        ),
{
    if str_is_blank(api_key) {
        return ApiKeyHeader::NoKey;
    }
    let google = match host {
        Some(h) => api == ModelApi::GeminiGenerateContent && str_eq(h, "generativelanguage.googleapis.com"),
        None => false,
    };
    if google {
        ApiKeyHeader::GoogApiKey(trim_str(api_key))
    } else {
        ApiKeyHeader::Bearer(trim_str(api_key))
    }
}

/// The error for a model call that did not succeed: its status code and body.
pub fn model_error_message(status: u16, body: &str) -> (r: String)
    ensures
        r@ == "AI model returned error "@ + decimal_nat(status as nat) + ": "@ + body@,
{
    let mut s = owned("AI model returned error ");
    push_decimal(&mut s, status as u64);
    s.append(": ");
    s.append(body);
    s
}

} // verus!
