//! The Gemini REST API.
//!
//! Credentials are taken from the configuration, then from the environment,
//! then from the file of the Gemini command line tool. Thinking models mark
//! their reasoning with `thought`; the answer is the text without it.

use vstd::prelude::*;
use vstd::string::*;
use crate::clock::{parse_rfc3339, rfc3339_instant, utc_now, Instant};
use crate::error::{ErrorModel, ZeptoError};
use crate::http::{is_success, success_status};
use crate::json::{
    item, items_model, items_model_index, member, members_model, natural_of, opt_json, opt_text,
    parsed_json, put, put_item, real_model, text_member, Json, JsonModel, JsonNumber,
};
use crate::providers::chat::{usage, ChatOptions, LLMResponse, ResponseModel, Usage};
use crate::session::{message_models, Message, MessageModel, Role};
use crate::text::{concat, join, joined, opt_string, same_text, texts};

verus! {

/// The base of the addresses of the REST API.
pub const GEMINI_API_BASE: &'static str = "https://generativelanguage.googleapis.com/v1beta";

/// Where, under the home directory, the Gemini command line tool keeps its
/// credentials.
pub const GEMINI_CLI_CREDS_PATH: &'static str = ".gemini/oauth_credentials.json";

/// The model that is used where none is named.
pub const DEFAULT_GEMINI_MODEL: &'static str = "gemini-2.0-flash";

/// How many seconds a request may take.
pub const REQUEST_TIMEOUT_SECS: u64 = 120;

/// How a request shows who makes it.
pub enum GeminiAuth {
    /// An API key, sent as the query parameter `key`.
    ApiKey(String),
    /// An OAuth token, sent in the header `Authorization`.
    BearerToken(String),
}

/// What a credential is.
#[verifier::ext_equal]
pub enum AuthModel {
    ApiKey(Seq<char>),
    BearerToken(Seq<char>),
}

impl View for GeminiAuth {
    type V = AuthModel;

    open spec fn view(&self) -> AuthModel {
        match *self {
            GeminiAuth::ApiKey(key) => AuthModel::ApiKey(key@),
            GeminiAuth::BearerToken(token) => AuthModel::BearerToken(token@),
        }
    }
}

/// The text of a credential that may be logged: it tells nothing of the key or
/// token.
pub open spec fn logged(auth: AuthModel) -> Seq<char> {
    match auth {
        AuthModel::ApiKey(_) => "GeminiAuth::ApiKey([REDACTED])"@,
        AuthModel::BearerToken(_) => "GeminiAuth::BearerToken([REDACTED])"@,
    }
}

/// A key that is set and not empty.
pub open spec fn usable(key: Option<Seq<char>>) -> Option<Seq<char>> {
    match key {
        Some(key) => if key.len() > 0 {
            Some(key)
        } else {
            None
        },
        None => None,
    }
}

/// The credential that counts: the configured key, then the key of the
/// environment, then the token.
pub open spec fn resolved(
    explicit_key: Option<Seq<char>>,
    env_key: Option<Seq<char>>,
    oauth_token: Option<Seq<char>>,
) -> Option<AuthModel> {
    match (usable(explicit_key), usable(env_key), oauth_token) {
        (Some(key), _, _) => Some(AuthModel::ApiKey(key)),
        (None, Some(key), _) => Some(AuthModel::ApiKey(key)),
        (None, None, Some(token)) => Some(AuthModel::BearerToken(token)),
        (None, None, None) => None,
    }
}

/// What an optional credential is.
pub open spec fn opt_auth(auth: Option<GeminiAuth>) -> Option<AuthModel> {
    match auth {
        Some(auth) => Some(auth@),
        None => None,
    }
}

/// The expiry that a credential file gives: `expiry`, or else `expires_at`.
pub open spec fn expiry_text(json: JsonModel) -> Option<Seq<char>> {
    match text_member(json, "expiry"@) {
        Some(text) => Some(text),
        None => text_member(json, "expires_at"@),
    }
}

/// The token that a credential file holds: `access_token`, or else `token`, or
/// else `oauth_token`.
pub open spec fn stored_token(json: JsonModel) -> Option<Seq<char>> {
    match (
        text_member(json, "access_token"@),
        text_member(json, "token"@),
        text_member(json, "oauth_token"@),
    ) {
        (Some(token), _, _) => Some(token),
        (None, Some(token), _) => Some(token),
        (None, None, token) => token,
    }
}

/// The point in time at which a credential file says that its token expires;
/// `None` where it says none or nothing that can be read.
pub open spec fn expiry_of(json: JsonModel) -> Option<Instant> {
    match expiry_text(json) {
        Some(text) => rfc3339_instant(text),
        None => None,
    }
}

/// The token, unless it has expired by `now`.
pub open spec fn unexpired_token(json: JsonModel, expiry: Option<Instant>, now: Instant) -> Option<
    Seq<char>,
> {
    match expiry {
        Some(expiry) => if expiry.earlier(now) {
            None
        } else {
            stored_token(json)
        },
        None => stored_token(json),
    }
}

/// What is to be said of the expiry in a credential file.
pub enum ExpiryNotice {
    /// Nothing.
    Fine,
    /// The token has expired; the text is the expiry.
    Expired(String),
    /// The text cannot be read as a time, so the token may have expired.
    Unreadable(String),
}

/// What a notice says.
#[verifier::ext_equal]
pub enum NoticeModel {
    Fine,
    Expired(Seq<char>),
    Unreadable(Seq<char>),
}

impl View for ExpiryNotice {
    type V = NoticeModel;

    open spec fn view(&self) -> NoticeModel {
        match *self {
            ExpiryNotice::Fine => NoticeModel::Fine,
            ExpiryNotice::Expired(text) => NoticeModel::Expired(text@),
            ExpiryNotice::Unreadable(text) => NoticeModel::Unreadable(text@),
        }
    }
}

/// What is to be said at the time `now` of the expiry `text`, which was read as
/// `expiry`.
pub open spec fn notice_of(
    text: Option<Seq<char>>,
    expiry: Option<Instant>,
    now: Instant,
) -> NoticeModel {
    match (text, expiry) {
        (None, _) => NoticeModel::Fine,
        (Some(text), Some(expiry)) => if expiry.earlier(now) {
            NoticeModel::Expired(text)
        } else {
            NoticeModel::Fine
        },
        (Some(text), None) => NoticeModel::Unreadable(text),
    }
}

/// The token in the contents of a credential file at the time `now`; `None`
/// where the file could not be read or holds no JSON.
pub open spec fn cli_token(contents: Option<Seq<char>>, now: Instant) -> Option<Seq<char>> {
    match contents {
        Some(text) => match parsed_json(text) {
            Some(json) => unexpired_token(json, expiry_of(json), now),
            None => None,
        },
        None => None,
    }
}

/// A key that is set and not empty.
fn usable_key(key: Option<&str>) -> (r: Option<&str>)
    ensures
        opt_text(r) == usable(opt_text(key)),
{
    match key {
        Some(k) => if k.unicode_len() > 0 {
            Some(k)
        } else {
            None
        },
        None => None,
    }
}

/// The expiry that a credential file gives.
fn read_expiry(json: &Json) -> (r: Option<&str>)
    ensures
        opt_text(r) == expiry_text(json@),
{
    match json.get_str("expiry") {
        Some(text) => Some(text),
        None => json.get_str("expires_at"),
    }
}

impl GeminiAuth {
    /// The text that may be logged: it tells nothing of the key or token.
    pub fn debug_text(&self) -> (r: &'static str)
        ensures
            r@ == logged(self@),
    {
        match self {
            GeminiAuth::ApiKey(_) => "GeminiAuth::ApiKey([REDACTED])",
            GeminiAuth::BearerToken(_) => "GeminiAuth::BearerToken([REDACTED])",
        }
    }

    /// The credential that counts. An empty key counts as none.
    pub fn resolve(
        explicit_key: Option<&str>,
        env_key: Option<&str>,
        oauth_token: Option<String>,
    ) -> (r: Option<GeminiAuth>)
        ensures
            opt_auth(r) == resolved(
                opt_text(explicit_key),
                opt_text(env_key),
                opt_string(oauth_token),
            ),
    {
        if let Some(k) = usable_key(explicit_key) {
            return Some(GeminiAuth::ApiKey(k.to_string()));
        }
        if let Some(k) = usable_key(env_key) {
            return Some(GeminiAuth::ApiKey(k.to_string()));
        }
        match oauth_token {
            Some(token) => Some(GeminiAuth::BearerToken(token)),
            None => None,
        }
    }

    /// The token of a credential file that expires at `expiry`, unless that is
    /// before `now`.
    pub fn token_unless_expired(json: &Json, expiry: Option<Instant>, now: &Instant) -> (r: Option<
        String,
    >)
        ensures
            opt_string(r) == unexpired_token(json@, expiry, *now),
    {
        if let Some(expiry) = expiry {
            if expiry.is_before(now) {
                return None;
            }
        }
        let token = match json.get_str("access_token") {
            Some(token) => Some(token),
            None => match json.get_str("token") {
                Some(token) => Some(token),
                None => json.get_str("oauth_token"),
            },
        };
        match token {
            Some(token) => Some(token.to_string()),
            None => None,
        }
    }

    /// The token of a credential file at the time `now`.
    pub fn token_from_json_at(json: &Json, now: &Instant) -> (r: Option<String>)
        ensures
            opt_string(r) == unexpired_token(json@, expiry_of(json@), *now),
    {
        let expiry = match read_expiry(json) {
            Some(text) => parse_rfc3339(text),
            None => None,
        };
        GeminiAuth::token_unless_expired(json, expiry, now)
    }

    /// What is to be said at the time `now` of the expiry `text`, which was read
    /// as `expiry`.
    pub fn notice_for(text: Option<&str>, expiry: Option<Instant>, now: &Instant) -> (r:
        ExpiryNotice)
        ensures
            r@ == notice_of(opt_text(text), expiry, *now),
    {
        match (text, expiry) {
            (None, _) => ExpiryNotice::Fine,
            (Some(text), Some(expiry)) => if expiry.is_before(now) {
                ExpiryNotice::Expired(text.to_string())
            } else {
                ExpiryNotice::Fine
            },
            (Some(text), None) => ExpiryNotice::Unreadable(text.to_string()),
        }
    }

    /// What is to be said of the expiry in a credential file.
    pub fn expiry_notice(json: &Json) -> (r: ExpiryNotice)
        ensures
            exists|now: Instant|
                0 <= now.secs && r@ == #[trigger] notice_of(
                    expiry_text(json@),
                    expiry_of(json@),
                    now,
                ),
    {
        let now = utc_now();
        let text = read_expiry(json);
        let expiry = match text {
            Some(text) => parse_rfc3339(text),
            None => None,
        };
        GeminiAuth::notice_for(text, expiry, &now.instant)
    }

    /// The token of a credential file, if it has not expired.
    pub fn token_from_json_if_valid(json: &Json) -> (r: Option<String>)
        ensures
            exists|now: Instant|
                0 <= now.secs && opt_string(r) == #[trigger] unexpired_token(
                    json@,
                    expiry_of(json@),
                    now,
                ),
    {
        let now = utc_now();
        GeminiAuth::token_from_json_at(json, &now.instant)
    }

    /// The token of the Gemini command line tool, from the contents of its
    /// credential file; none where the file could not be read.
    pub fn load_cli_token(contents: Option<&str>) -> (r: Option<String>)
        ensures
            exists|now: Instant|
                0 <= now.secs && opt_string(r) == #[trigger] cli_token(opt_text(contents), now),
    {
        let ghost text = opt_text(contents);
        let r = match contents {
            Some(data) => match Json::parse(data) {
                Some(json) => {
                    let r = GeminiAuth::token_from_json_if_valid(&json);
                    proof {
                        let now = choose|now: Instant|
                            0 <= now.secs && opt_string(r) == #[trigger] unexpired_token(
                                json@,
                                expiry_of(json@),
                                now,
                            );
                        assert(opt_string(r) == cli_token(text, now));
                    }
                    return r;
                },
                None => None,
            },
            None => None,
        };
        proof {
            assert(opt_string(r) == cli_token(text, Instant { secs: 0, nanos: 0 }));
        }
        r
    }
}

/// The parts of a message: its text alone.
pub open spec fn text_parts(text: Seq<char>) -> JsonModel {
    JsonModel::Array(
        seq![JsonModel::Object(Map::empty().insert("text"@, JsonModel::Text(text)))],
    )
}

/// One turn of the conversation.
pub open spec fn turn(role: Seq<char>, text: Seq<char>) -> JsonModel {
    JsonModel::Object(
        Map::empty().insert("role"@, JsonModel::Text(role)).insert("parts"@, text_parts(text)),
    )
}

/// The body of a request.
pub open spec fn request_body(
    contents: Seq<JsonModel>,
    config: Map<Seq<char>, JsonModel>,
    system: Option<Seq<char>>,
) -> JsonModel {
    let body = Map::empty().insert("contents"@, JsonModel::Array(contents)).insert(
        "generationConfig"@,
        JsonModel::Object(config),
    );
    JsonModel::Object(
        match system {
            Some(system) => body.insert(
                "systemInstruction"@,
                JsonModel::Object(Map::empty().insert("parts"@, text_parts(system))),
            ),
            None => body,
        },
    )
}

/// The role of a speaker in the API.
pub open spec fn gemini_role(role: Role) -> Seq<char> {
    if role == Role::Assistant {
        "model"@
    } else {
        "user"@
    }
}

/// The turns of a conversation: its messages in order, without those of the
/// system.
pub open spec fn turns(messages: Seq<MessageModel>) -> Seq<JsonModel>
    decreases messages.len(),
{
    if messages.len() == 0 {
        Seq::empty()
    } else if messages.last().role == Role::System {
        turns(messages.drop_last())
    } else {
        turns(messages.drop_last()).push(
            turn(gemini_role(messages.last().role), messages.last().content),
        )
    }
}

/// The first message of the system.
pub open spec fn system_prompt(messages: Seq<MessageModel>) -> Option<Seq<char>>
    decreases messages.len(),
{
    if messages.len() == 0 {
        None
    } else if messages[0].role == Role::System {
        Some(messages[0].content)
    } else {
        system_prompt(messages.skip(1))
    }
}

/// The options of a request that are set.
pub open spec fn generation_config(options: ChatOptions) -> Map<Seq<char>, JsonModel> {
    let config = Map::empty();
    let config = match options.max_tokens {
        Some(n) => config.insert("maxOutputTokens"@, JsonModel::Integer(n as int)),
        None => config,
    };
    let config = match options.temperature {
        Some(n) => config.insert("temperature"@, n.model()),
        None => config,
    };
    match options.top_p {
        Some(n) => config.insert("topP"@, n.model()),
        None => config,
    }
}

/// The parts of message from a text.
fn text_parts_of(text: &str) -> (r: Json)
    ensures
        r@ == text_parts(text@),
{
    let mut part: Vec<(String, Json)> = Vec::new();
    put(&mut part, "text", Json::text(text));
    let mut parts: Vec<Json> = Vec::new();
    put_item(&mut parts, Json::Object(part));
    proof {
        assert(items_model(parts@) =~= seq![
            JsonModel::Object(Map::empty().insert("text"@, JsonModel::Text(text@))),
        ]);
    }
    Json::Array(parts)
}

/// One turn of the conversation.
fn turn_of(role: &str, text: &str) -> (r: Json)
    ensures
        r@ == turn(role@, text@),
{
    let mut members: Vec<(String, Json)> = Vec::new();
    put(&mut members, "role", Json::text(role));
    put(&mut members, "parts", text_parts_of(text));
    Json::Object(members)
}

/// The body of a request.
fn request_body_of(
    contents: Vec<Json>,
    config: Vec<(String, Json)>,
    system: Option<&str>,
) -> (r: Json)
    ensures
        r@ == request_body(items_model(contents@), members_model(config@), opt_text(system)),
{
    let mut body: Vec<(String, Json)> = Vec::new();
    put(&mut body, "contents", Json::Array(contents));
    put(&mut body, "generationConfig", Json::Object(config));
    if let Some(system) = system {
        let mut instruction: Vec<(String, Json)> = Vec::new();
        put(&mut instruction, "parts", text_parts_of(system));
        put(&mut body, "systemInstruction", Json::Object(instruction));
    }
    Json::Object(body)
}

/// A second number of the same value.
fn copy_number(n: &JsonNumber) -> (r: JsonNumber)
    ensures
        r.model() == n.model(),
{
    match n {
        JsonNumber::Unsigned(n) => JsonNumber::Unsigned(*n),
        JsonNumber::Signed(n) => JsonNumber::Signed(*n),
        JsonNumber::Real(text) => JsonNumber::Real(text.clone()),
    }
}

/// The options of a request that are set.
fn generation_config_of(options: &ChatOptions) -> (r: Vec<(String, Json)>)
    ensures
        members_model(r@) == generation_config(*options),
{
    let mut config: Vec<(String, Json)> = Vec::new();
    if let Some(n) = options.max_tokens {
        put(&mut config, "maxOutputTokens", Json::natural(n as u64));
    }
    if let Some(n) = &options.temperature {
        put(&mut config, "temperature", Json::Number(copy_number(n)));
    }
    if let Some(n) = &options.top_p {
        put(&mut config, "topP", Json::Number(copy_number(n)));
    }
    config
}

/// A part of an answer is a step of reasoning where it is marked as one.
pub open spec fn is_thought(part: JsonModel) -> bool {
    member(part, "thought"@) == Some(JsonModel::Bool(true))
}

/// The texts of the parts of an answer, without the steps of reasoning unless
/// `thoughts`.
pub open spec fn part_texts(parts: Seq<JsonModel>, thoughts: bool) -> Seq<Seq<char>>
    decreases parts.len(),
{
    if parts.len() == 0 {
        Seq::empty()
    } else {
        let before = part_texts(parts.drop_last(), thoughts);
        match text_member(parts.last(), "text"@) {
            Some(text) => if thoughts || !is_thought(parts.last()) {
                before.push(text)
            } else {
                before
            },
            None => before,
        }
    }
}

/// The answer that the parts make: the texts that are no reasoning, or all
/// texts where there are no others.
pub open spec fn answer_text(parts: Seq<JsonModel>) -> Option<Seq<char>> {
    if part_texts(parts, false).len() > 0 {
        Some(joined(part_texts(parts, false), Seq::empty()))
    } else if part_texts(parts, true).len() > 0 {
        Some(joined(part_texts(parts, true), Seq::empty()))
    } else {
        None
    }
}

/// The parts of the first candidate in a response.
pub open spec fn response_parts(response: JsonModel) -> Option<Seq<JsonModel>> {
    let candidate = match member(response, "candidates"@) {
        Some(candidates) => item(candidates, 0),
        None => None,
    };
    let content = match candidate {
        Some(candidate) => member(candidate, "content"@),
        None => None,
    };
    match content {
        Some(content) => match member(content, "parts"@) {
            Some(JsonModel::Array(parts)) => Some(parts),
            _ => None,
        },
        None => None,
    }
}

/// The text of a response.
pub open spec fn response_text(response: JsonModel) -> Option<Seq<char>> {
    match response_parts(response) {
        Some(parts) => answer_text(parts),
        None => None,
    }
}

/// The number of tokens under `key`, modulo the range of its type.
pub open spec fn token_count(meta: JsonModel, key: Seq<char>) -> Option<u32> {
    match member(meta, key) {
        Some(value) => match natural_of(value) {
            Some(n) => Some((n % 0x1_0000_0000) as u32),
            None => None,
        },
        None => None,
    }
}

/// The number of tokens that a response says it took.
pub open spec fn response_usage(response: JsonModel) -> Option<Usage> {
    match member(response, "usageMetadata"@) {
        Some(meta) => match (
            token_count(meta, "promptTokenCount"@),
            token_count(meta, "candidatesTokenCount"@),
        ) {
            (Some(prompt), Some(completion)) => Some(usage(prompt, completion)),
            _ => None,
        },
        None => None,
    }
}

/// Collects the texts of the parts of an answer.
fn collect_texts(parts: &Vec<Json>, thoughts: bool) -> (r: Vec<String>)
    ensures
        texts(r@) == part_texts(items_model(parts@), thoughts),
{
    let ghost all = items_model(parts@);
    let mut out: Vec<String> = Vec::new();
    let mut i: usize = 0;
    proof {
        items_model_index(parts@);
        assert(texts(out@) =~= part_texts(all.take(0), thoughts));
    }
    while i < parts.len()
        invariant
            i <= parts.len(),
            all.len() == parts.len(),
            forall|j: int| 0 <= j < parts.len() ==> #[trigger] all[j] == parts@[j].model(),
            texts(out@) == part_texts(all.take(i as int), thoughts),
        decreases parts.len() - i,
    {
        let part = &parts[i];
        proof {
            assert(all[i as int] == part@);
            assert(all.take(i + 1).drop_last() =~= all.take(i as int));
            assert(all.take(i + 1).last() == part@);
        }
        let thought = match part.get("thought") {
            Some(flag) => match flag.as_bool() {
                Some(b) => b,
                None => false,
            },
            None => false,
        };
        if let Some(text) = part.get_str("text") {
            if thoughts || !thought {
                let copy = text.to_string();
                proof {
                    assert(texts(out@.push(copy)) =~= texts(out@).push(text@));
                }
                out.push(copy);
            }
        }
        i = i + 1;
    }
    proof {
        assert(all.take(i as int) =~= all);
    }
    out
}

/// The number of tokens under `key`.
fn read_token_count(meta: &Json, key: &str) -> (r: Option<u32>)
    ensures
        r == token_count(meta@, key@),
{
    match meta.get(key) {
        Some(value) => match value.as_u64() {
            Some(n) => Some((n % 0x1_0000_0000) as u32),
            None => None,
        },
        None => None,
    }
}

/// A request to the API.
pub struct GeminiRequest {
    pub url: String,
    pub query: Vec<(String, String)>,
    pub headers: Vec<(String, String)>,
    pub body: Json,
}

/// What a request says.
#[verifier::ext_equal]
pub struct RequestModel {
    pub url: Seq<char>,
    pub query: Seq<(Seq<char>, Seq<char>)>,
    pub headers: Seq<(Seq<char>, Seq<char>)>,
    pub body: JsonModel,
}

/// The characters of a list of named texts.
pub open spec fn text_pairs(pairs: Seq<(String, String)>) -> Seq<(Seq<char>, Seq<char>)> {
    pairs.map_values(|p: (String, String)| (p.0@, p.1@))
}

impl View for GeminiRequest {
    type V = RequestModel;

    open spec fn view(&self) -> RequestModel {
        RequestModel {
            url: self.url@,
            query: text_pairs(self.query@),
            headers: text_pairs(self.headers@),
            body: self.body@,
        }
    }
}

/// The address that takes requests for a model.
pub open spec fn model_url(model: Seq<char>) -> Seq<char> {
    GEMINI_API_BASE@ + "/models/"@ + model + ":generateContent"@
}

/// The request with the credential: a key in the query, a token in the header
/// `Authorization`.
pub open spec fn authorized(request: RequestModel, auth: AuthModel) -> RequestModel {
    match auth {
        AuthModel::ApiKey(key) => RequestModel {
            query: request.query.push(("key"@, key)),
            ..request
        },
        AuthModel::BearerToken(token) => RequestModel {
            headers: request.headers.push(("Authorization"@, "Bearer "@ + token)),
            ..request
        },
    }
}

/// The body of a request from the messages of a conversation.
pub open spec fn messages_body(messages: Seq<MessageModel>, options: ChatOptions) -> JsonModel {
    request_body(turns(messages), generation_config(options), system_prompt(messages))
}

/// The request that a conversation makes.
pub open spec fn chat_request(
    auth: AuthModel,
    model: Seq<char>,
    messages: Seq<MessageModel>,
    options: ChatOptions,
) -> RequestModel {
    authorized(
        RequestModel {
            url: model_url(model),
            query: Seq::empty(),
            headers: seq![
                ("Content-Type"@, "application/json"@),
                ("X-Title"@, "ZeptoClaw"@),
            ],
            body: messages_body(messages, options),
        },
        auth,
    )
}

/// The body of a request of one turn.
pub open spec fn single_turn_body(
    role: Seq<char>,
    text: Seq<char>,
    system: Option<Seq<char>>,
) -> JsonModel {
    request_body(
        seq![
            turn(
                if role == "assistant"@ {
                    "model"@
                } else {
                    "user"@
                },
                text,
            ),
        ],
        Map::empty().insert("temperature"@, real_model("0.7"@)).insert(
            "maxOutputTokens"@,
            JsonModel::Integer(4096),
        ),
        system,
    )
}

/// What came back for a request.
pub enum GeminiReply {
    /// Nothing: the request failed for the given reason.
    Failed(String),
    /// An answer of the server.
    Answered(GeminiAnswer),
}

/// An answer of the server.
pub struct GeminiAnswer {
    /// The status code.
    pub status: u16,
    /// The body as text; `None` where it could not be read.
    pub body: Option<String>,
    /// The body as JSON, or why it is none.
    pub json: Result<Json, String>,
}

/// Why a conversation got no answer.
#[derive(Debug)]
pub enum ChatError {
    /// The server could not be reached or understood.
    Failed(ZeptoError),
    /// The server refused with a status.
    Api(u16, String),
}

/// What the reason says.
#[verifier::ext_equal]
pub enum ChatErrorModel {
    Failed(ErrorModel),
    Api(u16, Seq<char>),
}

impl View for ChatError {
    type V = ChatErrorModel;

    open spec fn view(&self) -> ChatErrorModel {
        match *self {
            ChatError::Failed(e) => ChatErrorModel::Failed(e@),
            ChatError::Api(status, message) => ChatErrorModel::Api(status, message@),
        }
    }
}

/// The message in the body of a refusal, if it is JSON with one.
pub open spec fn refusal_detail(json: Option<JsonModel>) -> Option<Seq<char>> {
    match json {
        Some(json) => match member(json, "error"@) {
            Some(error) => text_member(error, "message"@),
            None => None,
        },
        None => None,
    }
}

/// What is said of a refusal: the message in its body, or the body itself.
pub open spec fn refusal_message(body: Seq<char>, json: Option<JsonModel>) -> Seq<char> {
    "Gemini API error: "@ + (match refusal_detail(json) {
        Some(detail) => detail,
        None => body,
    })
}

/// What a response says: an empty text where it has none.
pub open spec fn response_of(response: JsonModel) -> ResponseModel {
    ResponseModel {
        content: match response_text(response) {
            Some(text) => text,
            None => Seq::empty(),
        },
        usage: response_usage(response),
    }
}

/// What a conversation gets for a reply.
pub open spec fn chat_outcome(reply: GeminiReply) -> Result<ResponseModel, ChatErrorModel> {
    match reply {
        GeminiReply::Failed(reason) => Err(
            ChatErrorModel::Failed(ErrorModel::Provider("Gemini request failed: "@ + reason@)),
        ),
        GeminiReply::Answered(answer) => if success_status(answer.status) {
            match answer.json {
                Ok(json) => Ok(response_of(json@)),
                Err(reason) => Err(
                    ChatErrorModel::Failed(
                        ErrorModel::Provider("Failed to parse Gemini response: "@ + reason@),
                    ),
                ),
            }
        } else {
            let body = match answer.body {
                Some(body) => body@,
                None => Seq::empty(),
            };
            Err(ChatErrorModel::Api(answer.status, refusal_message(body, parsed_json(body))))
        },
    }
}

/// The message of a refusal with the given body, which is the given JSON.
pub fn format_refusal(body: &str, json: Option<&Json>) -> (r: String)
    ensures
        r@ == refusal_message(body@, opt_json(json)),
{
    let detail = match json {
        Some(json) => match json.get("error") {
            Some(error) => error.get_str("message"),
            None => None,
        },
        None => None,
    };
    let mut text = "Gemini API error: ".to_string();
    match detail {
        Some(detail) => text.append(detail),
        None => text.append(body),
    }
    text
}

/// The configured keys that the environment may hold.
pub struct EnvKeys {
    /// The value of `GEMINI_API_KEY`.
    pub gemini: Option<String>,
    /// The value of `GOOGLE_API_KEY`.
    pub google: Option<String>,
}

impl EnvKeys {
    /// The key that counts: the first of the two that is set and not empty.
    pub open spec fn key(self) -> Option<Seq<char>> {
        match usable(opt_string(self.gemini)) {
            Some(key) => Some(key),
            None => usable(opt_string(self.google)),
        }
    }
}

/// Whether the token of the command line tool is looked for.
pub open spec fn wants_token(api_key: Option<Seq<char>>, prefer_oauth: bool) -> bool {
    prefer_oauth || usable(api_key) is None
}

/// A client of the API for one model.
pub struct GeminiProvider {
    auth: GeminiAuth,
    model: String,
}

/// What a provider is.
#[verifier::ext_equal]
pub struct ProviderModel {
    pub auth: AuthModel,
    pub model: Seq<char>,
}

impl View for GeminiProvider {
    type V = ProviderModel;

    closed spec fn view(&self) -> ProviderModel {
        ProviderModel { auth: self.auth@, model: self.model@ }
    }
}

/// The provider with a credential, where there is one.
pub open spec fn provider_with(auth: Option<AuthModel>, model: Seq<char>) -> Option<ProviderModel> {
    match auth {
        Some(auth) => Some(ProviderModel { auth, model }),
        None => None,
    }
}

/// The request that a conversation makes of `model`, or of the provider's own
/// model.
pub open spec fn conversation(
    provider: ProviderModel,
    model: Option<Seq<char>>,
    messages: Seq<MessageModel>,
    options: ChatOptions,
) -> RequestModel {
    let model = match model {
        Some(model) => model,
        None => provider.model,
    };
    chat_request(provider.auth, model, messages, options)
}

/// What an optional provider is.
pub open spec fn opt_provider(provider: Option<GeminiProvider>) -> Option<ProviderModel> {
    match provider {
        Some(provider) => Some(provider@),
        None => None,
    }
}

/// The provider that the configuration, the environment and the credential file
/// give at the time `now`.
pub open spec fn configured(
    api_key: Option<Seq<char>>,
    model: Seq<char>,
    prefer_oauth: bool,
    env_key: Option<Seq<char>>,
    credentials: Option<Seq<char>>,
    now: Instant,
) -> Option<ProviderModel> {
    let token = if wants_token(api_key, prefer_oauth) {
        cli_token(credentials, now)
    } else {
        None
    };
    provider_with(resolved(api_key, env_key, token), model)
}

impl GeminiProvider {
    /// A provider with an API key.
    pub fn new_with_key(api_key: &str, model: &str) -> (r: GeminiProvider)
        ensures
            r@ == (ProviderModel { auth: AuthModel::ApiKey(api_key@), model: model@ }),
    {
        GeminiProvider {
            auth: GeminiAuth::ApiKey(api_key.to_string()),
            model: model.to_string(),
        }
    }

    /// A provider with an OAuth token.
    pub fn new_with_token(bearer_token: &str, model: &str) -> (r: GeminiProvider)
        ensures
            r@ == (ProviderModel { auth: AuthModel::BearerToken(bearer_token@), model: model@ }),
    {
        GeminiProvider {
            auth: GeminiAuth::BearerToken(bearer_token.to_string()),
            model: model.to_string(),
        }
    }

    /// The model that is used where none is named.
    pub fn default_gemini_model() -> (r: &'static str)
        ensures
            r@ == "gemini-2.0-flash"@,
    {
        DEFAULT_GEMINI_MODEL
    }

    /// Whether the credential file has to be read: where a token is preferred,
    /// and where no key is configured.
    pub fn needs_cli_token(api_key: Option<&str>, prefer_oauth: bool) -> (r: bool)
        ensures
            r == wants_token(opt_text(api_key), prefer_oauth),
    {
        prefer_oauth || usable_key(api_key).is_none()
    }

    /// The provider with the credential that counts, if there is one.
    pub fn from_credentials(
        api_key: Option<&str>,
        model: &str,
        env: &EnvKeys,
        oauth_token: Option<String>,
    ) -> (r: Option<GeminiProvider>)
        ensures
            opt_provider(r) == provider_with(
                resolved(opt_text(api_key), env.key(), opt_string(oauth_token)),
                model@,
            ),
    {
        let gemini = match &env.gemini {
            Some(key) => usable_key(Some(key.as_str())),
            None => None,
        };
        let env_key = match (gemini, &env.google) {
            (Some(key), _) => Some(key),
            (None, Some(key)) => usable_key(Some(key.as_str())),
            (None, None) => None,
        };
        match GeminiAuth::resolve(api_key, env_key, oauth_token) {
            Some(auth) => Some(GeminiProvider { auth, model: model.to_string() }),
            None => None,
        }
    }

    /// The provider that the configuration, the environment and the contents of
    /// the credential file give, if they give one. The contents are looked at
    /// only where a token is wanted.
    pub fn from_config(
        api_key: Option<&str>,
        model: &str,
        prefer_oauth: bool,
        env: &EnvKeys,
        credentials: Option<&str>,
    ) -> (r: Option<GeminiProvider>)
        ensures
            exists|now: Instant|
                0 <= now.secs && opt_provider(r) == #[trigger] configured(
                    opt_text(api_key),
                    model@,
                    prefer_oauth,
                    env.key(),
                    opt_text(credentials),
                    now,
                ),
    {
        let wanted = GeminiProvider::needs_cli_token(api_key, prefer_oauth);
        let oauth_token = if wanted {
            GeminiAuth::load_cli_token(credentials)
        } else {
            None
        };
        let ghost now = if wanted {
            choose|now: Instant|
                0 <= now.secs && opt_string(oauth_token) == #[trigger] cli_token(
                    opt_text(credentials),
                    now,
                )
        } else {
            Instant { secs: 0, nanos: 0 }
        };
        let r = GeminiProvider::from_credentials(api_key, model, env, oauth_token);
        proof {
            assert(opt_provider(r) == configured(
                opt_text(api_key),
                model@,
                prefer_oauth,
                env.key(),
                opt_text(credentials),
                now,
            ));
        }
        r
    }

    /// The credential.
    pub fn auth(&self) -> (r: &GeminiAuth)
        ensures
            r@ == self@.auth,
    {
        &self.auth
    }

    /// The body of a request of one turn.
    pub fn build_request_body_from_parts(
        &self,
        role: &str,
        text: &str,
        system: Option<&str>,
    ) -> (r: Json)
        ensures
            r@ == single_turn_body(role@, text@, opt_text(system)),
    {
        let gemini_role = if same_text(role, "assistant") {
            "model"
        } else {
            "user"
        };
        let mut contents: Vec<Json> = Vec::new();
        put_item(&mut contents, turn_of(gemini_role, text));
        let mut config: Vec<(String, Json)> = Vec::new();
        put(&mut config, "temperature", Json::Number(JsonNumber::Real("0.7".to_string())));
        put(&mut config, "maxOutputTokens", Json::natural(4096));
        proof {
            assert(items_model(contents@) =~= seq![turn(gemini_role@, text@)]);
        }
        request_body_of(contents, config, system)
    }

    /// The body of a request from the messages of a conversation. The first
    /// message of the system becomes the instruction; the others of the system
    /// are left out.
    pub fn build_messages_body(&self, messages: &Vec<Message>, options: &ChatOptions) -> (r: Json)
        ensures
            r@ == messages_body(message_models(messages@), *options),
    {
        let ghost all = message_models(messages@);
        let mut system: Option<&str> = None;
        let mut contents: Vec<Json> = Vec::new();
        let mut i: usize = 0;
        proof {
            assert(all.skip(0) =~= all);
        }
        while i < messages.len()
            invariant
                i <= messages.len(),
                all == message_models(messages@),
                system_prompt(all) == (match system {
                    Some(text) => Some(text@),
                    None => system_prompt(all.skip(i as int)),
                }),
                items_model(contents@) == turns(all.take(i as int)),
            decreases messages.len() - i,
        {
            let message = &messages[i];
            proof {
                assert(all[i as int] == message@);
                assert(all.skip(i as int)[0] == message@);
                assert(all.skip(i as int).skip(1) =~= all.skip(i + 1));
                assert(all.take(i + 1).drop_last() =~= all.take(i as int));
                assert(all.take(i + 1).last() == message@);
            }
            if message.role == Role::System {
                if system.is_none() {
                    system = Some(message.content.as_str());
                }
            } else {
                let role = if message.role == Role::Assistant {
                    "model"
                } else {
                    "user"
                };
                put_item(&mut contents, turn_of(role, message.content.as_str()));
            }
            i = i + 1;
        }
        proof {
            assert(all.take(i as int) =~= all);
            assert(system_prompt(all) == opt_text(system));
        }
        request_body_of(contents, generation_config_of(options), system)
    }

    /// The text of a response: the texts of the first candidate that are no
    /// reasoning, or the reasoning where there is nothing else.
    pub fn extract_text(response: &Json) -> (r: Option<String>)
        ensures
            opt_string(r) == response_text(response@),
    {
        let candidate = match response.get("candidates") {
            Some(candidates) => candidates.at(0),
            None => None,
        };
        let content = match candidate {
            Some(candidate) => candidate.get("content"),
            None => None,
        };
        let parts = match content {
            Some(content) => match content.get("parts") {
                Some(parts) => parts.as_array(),
                None => None,
            },
            None => None,
        };
        let parts = match parts {
            Some(parts) => parts,
            None => return None,
        };
        proof {
            reveal_strlit("");
            assert(""@ =~= Seq::<char>::empty());
        }
        let final_parts = collect_texts(parts, false);
        if final_parts.len() > 0 {
            return Some(join(&final_parts, ""));
        }
        let thought_parts = collect_texts(parts, true);
        if thought_parts.len() > 0 {
            Some(join(&thought_parts, ""))
        } else {
            None
        }
    }

    /// The number of tokens that a response says it took.
    pub fn extract_usage(response: &Json) -> (r: Option<Usage>)
        ensures
            r == response_usage(response@),
    {
        let meta = match response.get("usageMetadata") {
            Some(meta) => meta,
            None => return None,
        };
        match (
            read_token_count(meta, "promptTokenCount"),
            read_token_count(meta, "candidatesTokenCount"),
        ) {
            (Some(prompt), Some(completion)) => Some(Usage::new(prompt, completion)),
            _ => None,
        }
    }

    /// The address that takes requests for a model.
    pub fn api_url(&self, model: &str) -> (r: String)
        ensures
            r@ == model_url(model@),
    {
        let mut url = concat(GEMINI_API_BASE, "/models/", model);
        url.append(":generateContent");
        url
    }

    /// Adds the credential to a request.
    pub fn apply_auth(&self, request: GeminiRequest) -> (r: GeminiRequest)
        ensures
            r@ == authorized(request@, self@.auth),
    {
        let mut request = request;
        let ghost before = request@;
        match &self.auth {
            GeminiAuth::ApiKey(key) => {
                let ghost query = request.query@;
                let pair = ("key".to_string(), key.clone());
                request.query.push(pair);
                proof {
                    assert(text_pairs(query.push(pair)) =~= text_pairs(query).push(
                        ("key"@, key@),
                    ));
                }
            },
            GeminiAuth::BearerToken(token) => {
                let ghost headers = request.headers@;
                let mut value = "Bearer ".to_string();
                value.append(token.as_str());
                let pair = ("Authorization".to_string(), value);
                request.headers.push(pair);
                proof {
                    assert(text_pairs(headers.push(pair)) =~= text_pairs(headers).push(
                        ("Authorization"@, "Bearer "@ + token@),
                    ));
                }
            },
        }
        request
    }

    /// The request that a conversation makes of `model`, or of the provider's
    /// own model.
    pub fn chat(&self, messages: &Vec<Message>, model: Option<&str>, options: &ChatOptions) -> (r:
        GeminiRequest)
        ensures
            r@ == conversation(self@, opt_text(model), message_models(messages@), *options),
    {
        let model = match model {
            Some(model) => model,
            None => self.model.as_str(),
        };
        let body = self.build_messages_body(messages, options);
        let mut headers: Vec<(String, String)> = Vec::new();
        headers.push(("Content-Type".to_string(), "application/json".to_string()));
        headers.push(("X-Title".to_string(), "ZeptoClaw".to_string()));
        let query: Vec<(String, String)> = Vec::new();
        proof {
            assert(text_pairs(query@) =~= Seq::empty());
            assert(text_pairs(headers@) =~= seq![
                ("Content-Type"@, "application/json"@),
                ("X-Title"@, "ZeptoClaw"@),
            ]);
        }
        let request = GeminiRequest { url: self.api_url(model), query, headers, body };
        self.apply_auth(request)
    }

    /// Reads the reply to a conversation.
    pub fn chat_reply(&self, reply: GeminiReply) -> (r: Result<LLMResponse, ChatError>)
        ensures
            match r {
                Ok(response) => chat_outcome(reply) == Ok::<ResponseModel, ChatErrorModel>(
                    response@,
                ),
                Err(e) => chat_outcome(reply) == Err::<ResponseModel, ChatErrorModel>(e@),
            },
    {
        let answer = match reply {
            GeminiReply::Failed(reason) => {
                let mut text = "Gemini request failed: ".to_string();
                text.append(reason.as_str());
                return Err(ChatError::Failed(ZeptoError::Provider(text)));
            },
            GeminiReply::Answered(answer) => answer,
        };
        if is_success(answer.status) {
            let json = match answer.json {
                Ok(json) => json,
                Err(reason) => {
                    let mut text = "Failed to parse Gemini response: ".to_string();
                    text.append(reason.as_str());
                    return Err(ChatError::Failed(ZeptoError::Provider(text)));
                },
            };
            let content = match GeminiProvider::extract_text(&json) {
                Some(text) => text,
                None => String::new(),
            };
            let response = LLMResponse::text(content.as_str());
            return Ok(
                match GeminiProvider::extract_usage(&json) {
                    Some(usage) => response.with_usage(usage),
                    None => response,
                },
            );
        }
        let body = match answer.body {
            Some(body) => body,
            None => String::new(),
        };
        let json = Json::parse(body.as_str());
        let message = match &json {
            Some(json) => format_refusal(body.as_str(), Some(json)),
            None => format_refusal(body.as_str(), None),
        };
        Err(ChatError::Api(answer.status, message))
    }

    /// The provider's own model.
    pub fn default_model(&self) -> (r: &str)
        ensures
            r@ == self@.model,
    {
        self.model.as_str()
    }

    /// The name of the provider.
    pub fn name(&self) -> (r: &str)
        ensures
            r@ == "gemini-native"@,
    {
        "gemini-native"
    }
}

/// A token that is said to have expired is not given out.
pub proof fn expired_token_is_refused(json: JsonModel, now: Instant)
    ensures
        notice_of(expiry_text(json), expiry_of(json), now) is Expired ==> unexpired_token(
            json,
            expiry_of(json),
            now,
        ) is None,
{
}

/// The turns of a conversation are those of its parts, in order.
pub proof fn turns_follow_the_conversation(a: Seq<MessageModel>, b: Seq<MessageModel>)
    ensures
        turns(a + b) == turns(a) + turns(b),
    decreases b.len(),
{
    if b.len() == 0 {
        assert(a + b =~= a);
        assert(turns(a) + turns(b) =~= turns(a));
    } else {
        assert((a + b).drop_last() =~= a + b.drop_last());
        assert((a + b).last() == b.last());
        turns_follow_the_conversation(a, b.drop_last());
        assert(turns(a + b) =~= turns(a) + turns(b));
    }
}

/// A message of the system is no turn of the conversation, wherever it stands.
pub proof fn system_messages_are_no_turns(
    a: Seq<MessageModel>,
    message: MessageModel,
    b: Seq<MessageModel>,
)
    requires
        message.role == Role::System,
    ensures
        turns(a.push(message) + b) == turns(a + b),
{
    assert(a.push(message).drop_last() =~= a);
    turns_follow_the_conversation(a.push(message), b);
    turns_follow_the_conversation(a, b);
}

/// Any other message is one turn, with its text, wherever it stands.
pub proof fn other_messages_are_turns(
    a: Seq<MessageModel>,
    message: MessageModel,
    b: Seq<MessageModel>,
)
    requires
        message.role != Role::System,
    ensures
        turns(a.push(message) + b) == turns(a).push(
            turn(gemini_role(message.role), message.content),
        ) + turns(b),
{
    assert(a.push(message).drop_last() =~= a);
    turns_follow_the_conversation(a.push(message), b);
}

/// The texts of an answer are those of its pieces, in order.
proof fn part_texts_append(a: Seq<JsonModel>, b: Seq<JsonModel>, thoughts: bool)
    ensures
        part_texts(a + b, thoughts) == part_texts(a, thoughts) + part_texts(b, thoughts),
    decreases b.len(),
{
    if b.len() == 0 {
        assert(a + b =~= a);
        assert(part_texts(a, thoughts) + part_texts(b, thoughts) =~= part_texts(a, thoughts));
    } else {
        assert((a + b).drop_last() =~= a + b.drop_last());
        assert((a + b).last() == b.last());
        part_texts_append(a, b.drop_last(), thoughts);
        assert(part_texts(a + b, thoughts) =~= part_texts(a, thoughts) + part_texts(b, thoughts));
    }
}

/// A step of reasoning does not change an answer that has any other text,
/// wherever it stands.
pub proof fn thoughts_are_skipped(a: Seq<JsonModel>, thought: JsonModel, b: Seq<JsonModel>)
    requires
        is_thought(thought),
        part_texts(a + b, false).len() > 0,
    ensures
        answer_text(a.push(thought) + b) == answer_text(a + b),
{
    assert(a.push(thought).drop_last() =~= a);
    part_texts_append(a.push(thought), b, false);
    part_texts_append(a, b, false);
}

/// There is an answer just where some part, reasoning or not, has a text.
pub proof fn some_text_is_answered(parts: Seq<JsonModel>)
    ensures
        answer_text(parts) is Some <==> exists|i: int|
            0 <= i < parts.len() && text_member(#[trigger] parts[i], "text"@) is Some,
{
    texts_of_parts(parts);
    fewer_texts_without_thoughts(parts);
}

/// Some text is collected just where some part has one.
proof fn texts_of_parts(parts: Seq<JsonModel>)
    ensures
        part_texts(parts, true).len() > 0 <==> exists|i: int|
            0 <= i < parts.len() && text_member(#[trigger] parts[i], "text"@) is Some,
    decreases parts.len(),
{
    if parts.len() > 0 {
        let front = parts.drop_last();
        texts_of_parts(front);
        if part_texts(front, true).len() > 0 {
            let i = choose|i: int|
                0 <= i < front.len() && text_member(#[trigger] front[i], "text"@) is Some;
            assert(text_member(parts[i], "text"@) is Some);
        }
        if exists|i: int|
            0 <= i < parts.len() && text_member(#[trigger] parts[i], "text"@) is Some {
            let i = choose|i: int|
                0 <= i < parts.len() && text_member(#[trigger] parts[i], "text"@) is Some;
            if i < front.len() {
                assert(text_member(front[i], "text"@) is Some);
            }
        }
        if text_member(parts.last(), "text"@) is Some {
            assert(text_member(parts[parts.len() - 1], "text"@) is Some);
        }
    }
}

/// Leaving the reasoning out leaves no more texts.
proof fn fewer_texts_without_thoughts(parts: Seq<JsonModel>)
    ensures
        part_texts(parts, false).len() <= part_texts(parts, true).len(),
    decreases parts.len(),
{
    if parts.len() > 0 {
        fewer_texts_without_thoughts(parts.drop_last());
    }
}

} // verus!
