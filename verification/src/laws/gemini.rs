//! Laws of the Gemini API: which credential counts, what a request holds and
//! what is read from an answer.

use vstd::prelude::*;
use vstd::string::*;
use crate::clock::{rfc3339_instant, Instant};
use crate::error::ErrorModel;
use crate::json::{parsed_json, real_model, JsonModel};
use crate::laws::values::text_at;
use crate::providers::chat::{usage, ChatOptions, ResponseModel};
use crate::providers::gemini::{
    answer_text, authorized, chat_outcome, chat_request, cli_token, configured, conversation, expiry_of,
    expiry_text, generation_config, gemini_role, logged, messages_body, model_url, notice_of, part_texts,
    refusal_message, request_body, resolved, response_of, response_parts, response_text,
    response_usage, single_turn_body, stored_token, system_prompt, text_parts, turn, turns, unexpired_token,
    wants_token, AuthModel, ChatErrorModel, EnvKeys, GeminiAnswer, GeminiReply, NoticeModel,
    ProviderModel, RequestModel,
};
use crate::session::{MessageModel, Role};

verus! {

/// The options that are set stand in a request, each by itself and whatever the
/// others are; one that is not set does not, and nothing else does.
pub proof fn options_stand_each_by_itself(options: ChatOptions)
    ensures
        generation_config(options).dom().contains("temperature"@) == options.temperature is Some,
        options.temperature matches Some(n) ==> generation_config(options)["temperature"@]
            == n.model(),
        generation_config(options).dom().contains("maxOutputTokens"@) == options.max_tokens is Some,
        options.max_tokens matches Some(n) ==> generation_config(options)["maxOutputTokens"@]
            == JsonModel::Integer(n as int),
        generation_config(options).dom().contains("topP"@) == options.top_p is Some,
        options.top_p matches Some(n) ==> generation_config(options)["topP"@] == n.model(),
        forall|k: Seq<char>| #[trigger]
            generation_config(options).dom().contains(k) ==> k == "temperature"@ || k
                == "maxOutputTokens"@ || k == "topP"@,
{
    reveal_strlit("temperature");
    reveal_strlit("maxOutputTokens");
    reveal_strlit("topP");
    assert("temperature"@.len() == 11 && "maxOutputTokens"@.len() == 15 && "topP"@.len() == 4);
}

/// The body of a request for a conversation holds its turns, its options and,
/// where the conversation has one, the instruction of the system, and nothing
/// else.
pub proof fn body_of_a_conversation(messages: Seq<MessageModel>, options: ChatOptions)
    ensures
        messages_body(messages, options) matches JsonModel::Object(body) && {
            &&& forall|k: Seq<char>| #[trigger]
                body.dom().contains(k) == (k == "contents"@ || k == "generationConfig"@ || (k
                    == "systemInstruction"@ && system_prompt(messages) is Some))
            &&& body["contents"@] == JsonModel::Array(turns(messages))
            &&& body["generationConfig"@] == JsonModel::Object(generation_config(options))
            &&& system_prompt(messages) matches Some(text) ==> (
            body["systemInstruction"@] matches JsonModel::Object(instruction) && (forall|
                k: Seq<char>,
            | #[trigger]
                instruction.dom().contains(k) == (k == "parts"@)) && instruction["parts"@]
                == text_parts(text))
        },
{
    body_of_a_request(turns(messages), generation_config(options), system_prompt(messages));
}

/// The generation options of a conversation's request are those that are set,
/// each by itself.
pub proof fn body_has_the_options(messages: Seq<MessageModel>, options: ChatOptions)
    ensures
        messages_body(messages, options) matches JsonModel::Object(body) && body.dom().contains(
            "generationConfig"@,
        ) && (body["generationConfig"@] matches JsonModel::Object(config) && config.dom().contains(
            "temperature"@,
        ) == options.temperature is Some && (options.temperature matches Some(n)
            ==> config["temperature"@] == n.model()) && config.dom().contains("maxOutputTokens"@)
            == options.max_tokens is Some && (options.max_tokens matches Some(n)
            ==> config["maxOutputTokens"@] == JsonModel::Integer(n as int)) && config.dom().contains(
            "topP"@,
        ) == options.top_p is Some && (options.top_p matches Some(n) ==> config["topP"@]
            == n.model()) && (forall|k: Seq<char>| #[trigger]
            config.dom().contains(k) ==> k == "temperature"@ || k == "maxOutputTokens"@ || k
                == "topP"@)),
{
    body_of_a_conversation(messages, options);
    options_stand_each_by_itself(options);
}

/// The body of a request holds the turns, the options and, where there is one,
/// the instruction, and nothing else.
pub proof fn body_of_a_request(
    contents: Seq<JsonModel>,
    config: Map<Seq<char>, JsonModel>,
    system: Option<Seq<char>>,
)
    ensures
        request_body(contents, config, system) matches JsonModel::Object(body) && {
            &&& forall|k: Seq<char>| #[trigger]
                body.dom().contains(k) == (k == "contents"@ || k == "generationConfig"@ || (k
                    == "systemInstruction"@ && system is Some))
            &&& body["contents"@] == JsonModel::Array(contents)
            &&& body["generationConfig"@] == JsonModel::Object(config)
            &&& system matches Some(text) ==> (
            body["systemInstruction"@] matches JsonModel::Object(instruction) && (forall|
                k: Seq<char>,
            | #[trigger]
                instruction.dom().contains(k) == (k == "parts"@)) && instruction["parts"@]
                == text_parts(text))
        },
{
    reveal_strlit("contents");
    reveal_strlit("generationConfig");
    reveal_strlit("systemInstruction");
    assert("contents"@.len() == 8 && "generationConfig"@.len() == 16 && "systemInstruction"@.len()
        == 17);
}

/// A turn holds the role and the text of its speaker, and nothing else.
pub proof fn turn_holds_role_and_text(role: Seq<char>, text: Seq<char>)
    ensures
        turn(role, text) matches JsonModel::Object(members) && {
            &&& forall|k: Seq<char>| #[trigger]
                members.dom().contains(k) == (k == "role"@ || k == "parts"@)
            &&& members["role"@] == JsonModel::Text(role)
            &&& members["parts"@] matches JsonModel::Array(parts) && parts.len() == 1 && (
            parts[0] matches JsonModel::Object(part) && (forall|k: Seq<char>| #[trigger]
                part.dom().contains(k) == (k == "text"@)) && part["text"@] == JsonModel::Text(text))
        },
        text_parts(text) matches JsonModel::Array(parts) && parts.len() == 1 && (
        parts[0] matches JsonModel::Object(part) && (forall|k: Seq<char>| #[trigger]
            part.dom().contains(k) == (k == "text"@)) && part["text"@] == JsonModel::Text(text)),
{
    reveal_strlit("role");
    reveal_strlit("parts");
    assert("role"@.len() == 4 && "parts"@.len() == 5);
}

/// The body of a request of one turn holds that turn, the assistant's as `model`
/// and any other as `user`, the two options that are fixed, and the instruction
/// where there is one.
pub proof fn body_of_one_turn(role: Seq<char>, text: Seq<char>, system: Option<Seq<char>>)
    ensures
        single_turn_body(role, text, system) matches JsonModel::Object(body) && {
            &&& forall|k: Seq<char>| #[trigger]
                body.dom().contains(k) == (k == "contents"@ || k == "generationConfig"@ || (k
                    == "systemInstruction"@ && system is Some))
            &&& role == "assistant"@ ==> body["contents"@] == JsonModel::Array(
                seq![turn("model"@, text)],
            )
            &&& role != "assistant"@ ==> body["contents"@] == JsonModel::Array(
                seq![turn("user"@, text)],
            )
            &&& body["generationConfig"@] matches JsonModel::Object(config) && config.dom() == set![
                "temperature"@,
                "maxOutputTokens"@,
            ] && config["temperature"@] == real_model("0.7"@)
                && config["maxOutputTokens"@] == JsonModel::Integer(4096)
            &&& system matches Some(said) ==> (
            body["systemInstruction"@] matches JsonModel::Object(instruction)
                && instruction["parts"@] == text_parts(said))
        },
{
    reveal_strlit("temperature");
    reveal_strlit("maxOutputTokens");
    assert("temperature"@.len() == 11 && "maxOutputTokens"@.len() == 15);
    let config = map![
        "temperature"@ => real_model("0.7"@),
        "maxOutputTokens"@ => JsonModel::Integer(4096)
    ];
    assert(config.dom() =~= set!["temperature"@, "maxOutputTokens"@]);
    body_of_a_request(
        seq![
            turn(
                if role == "assistant"@ {
                    "model"@
                } else {
                    "user"@
                },
                text,
            ),
        ],
        config,
        system,
    );
}

/// What is logged of a credential is its kind: it is the same for every key, and
/// for every token.
pub proof fn nothing_is_logged_of_a_secret(a: Seq<char>, b: Seq<char>)
    ensures
        logged(AuthModel::ApiKey(a)) == logged(AuthModel::ApiKey(b)),
        logged(AuthModel::BearerToken(a)) == logged(AuthModel::BearerToken(b)),
        logged(AuthModel::ApiKey(a)) == "GeminiAuth::ApiKey([REDACTED])"@,
        logged(AuthModel::BearerToken(a)) == "GeminiAuth::BearerToken([REDACTED])"@,
{
}

/// The turns of a conversation are its messages but those of the system, in
/// order, the agent's as `model` and all others as `user`, each with its text.
pub proof fn turns_are_the_messages(messages: Seq<MessageModel>)
    ensures
        turns(messages) == messages.filter(|m: MessageModel| m.role != Role::System).map_values(
            |m: MessageModel|
                turn(
                    if m.role == Role::Assistant {
                        "model"@
                    } else {
                        "user"@
                    },
                    m.content,
                ),
        ),
    decreases messages.len(),
{
    reveal(Seq::filter);
    let spoken = |m: MessageModel| m.role != Role::System;
    let told = |m: MessageModel|
        turn(
            if m.role == Role::Assistant {
                "model"@
            } else {
                "user"@
            },
            m.content,
        );
    if messages.len() == 0 {
        assert(turns(messages) =~= messages.filter(spoken).map_values(told));
    } else {
        turns_are_the_messages(messages.drop_last());
        assert(turns(messages) =~= messages.filter(spoken).map_values(told));
    }
}

/// The agent speaks as `model`; a user, a tool and the system as `user`.
pub proof fn roles_of_the_speakers()
    ensures
        gemini_role(Role::Assistant) == "model"@,
        gemini_role(Role::User) == "user"@,
        gemini_role(Role::Tool) == "user"@,
        gemini_role(Role::System) == "user"@,
{
}

/// The instruction is the text of the first message of the system.
pub proof fn instruction_is_the_first_of_the_system(messages: Seq<MessageModel>, i: int)
    ensures
        0 <= i < messages.len() && messages[i].role == Role::System && (forall|j: int|
            0 <= j < i ==> (#[trigger] messages[j]).role != Role::System) ==> system_prompt(
            messages,
        ) == Some(messages[i].content),
        (forall|j: int| 0 <= j < messages.len() ==> (#[trigger] messages[j]).role != Role::System)
            ==> system_prompt(messages) is None,
    decreases messages.len(),
{
    if messages.len() > 0 && messages[0].role != Role::System {
        let rest = messages.skip(1);
        instruction_is_the_first_of_the_system(rest, i - 1);
        assert(forall|j: int|
            0 <= j < rest.len() ==> (#[trigger] rest[j]).role == messages[j + 1].role);
    }
}

/// An empty key counts as none. The configured key comes before that of the
/// environment, and any key before a token.
pub proof fn credential_that_counts(
    configured_key: Option<Seq<char>>,
    env_key: Option<Seq<char>>,
    token: Option<Seq<char>>,
)
    ensures
        match (resolved(configured_key, env_key, token)) {
            Some(AuthModel::ApiKey(key)) => key.len() > 0 && (configured_key == Some(key) || ((
            configured_key is None || configured_key->0.len() == 0) && env_key == Some(key))),
            Some(AuthModel::BearerToken(t)) => token == Some(t) && (configured_key is None
                || configured_key->0.len() == 0) && (env_key is None || env_key->0.len() == 0),
            None => token is None && (configured_key is None || configured_key->0.len() == 0) && (
            env_key is None || env_key->0.len() == 0),
        },
{
}

/// The key of `GEMINI_API_KEY` counts where it is not empty, else that of
/// `GOOGLE_API_KEY` where it is not.
pub proof fn key_of_the_environment(env: EnvKeys)
    ensures
        env.gemini matches Some(key) && key@.len() > 0 ==> env.key() == Some(env.gemini->0@),
        !(env.gemini matches Some(key) && key@.len() > 0) && (env.google matches Some(key)
            && key@.len() > 0) ==> env.key() == Some(env.google->0@),
        !(env.gemini matches Some(key) && key@.len() > 0) && !(env.google matches Some(key)
            && key@.len() > 0) ==> env.key() is None,
{
}

/// The token of the command line tool is looked for where a token is preferred,
/// and where no key is configured.
pub proof fn token_is_looked_for(key: Option<Seq<char>>, prefer_oauth: bool)
    ensures
        prefer_oauth ==> wants_token(key, prefer_oauth),
        key is None || key->0.len() == 0 ==> wants_token(key, prefer_oauth),
        !prefer_oauth && key is Some && key->0.len() > 0 ==> !wants_token(key, prefer_oauth),
{
}

/// There is a provider just where there is a key that is not empty or a token
/// that is looked for and found; it has that credential and the given model.
pub proof fn configured_provider(
    key: Option<Seq<char>>,
    model: Seq<char>,
    prefer_oauth: bool,
    env_key: Option<Seq<char>>,
    credentials: Option<Seq<char>>,
    now: Instant,
)
    ensures
        match configured(key, model, prefer_oauth, env_key, credentials, now) {
            Some(provider) => {
                &&& provider.model == model
                &&& provider.auth matches AuthModel::ApiKey(k) ==> k.len() > 0 && (key == Some(k)
                    || env_key == Some(k))
                &&& provider.auth matches AuthModel::BearerToken(t) ==> cli_token(credentials, now)
                    == Some(t)
                &&& key is Some && key->0.len() > 0 ==> provider.auth == AuthModel::ApiKey(key->0)
                &&& (key is None || key->0.len() == 0) && env_key is Some && env_key->0.len() > 0
                    ==> provider.auth == AuthModel::ApiKey(env_key->0)
            },
            None => {
                &&& key is None || key->0.len() == 0
                &&& env_key is None || env_key->0.len() == 0
                &&& cli_token(credentials, now) is None
            },
        },
{
}

/// The token in a credential file stands under `access_token`, or else under
/// `token`, or else under `oauth_token`; its expiry under `expiry`, or else under
/// `expires_at`.
pub proof fn contents_of_a_credential_file(members: Map<Seq<char>, JsonModel>)
    ensures
        text_at(members, "access_token"@) is Some ==> stored_token(JsonModel::Object(members))
            == text_at(members, "access_token"@),
        text_at(members, "access_token"@) is None && text_at(members, "token"@) is Some
            ==> stored_token(JsonModel::Object(members)) == text_at(members, "token"@),
        text_at(members, "access_token"@) is None && text_at(members, "token"@) is None
            ==> stored_token(JsonModel::Object(members)) == text_at(members, "oauth_token"@),
        text_at(members, "expiry"@) is Some ==> expiry_text(JsonModel::Object(members)) == text_at(
            members,
            "expiry"@,
        ),
        text_at(members, "expiry"@) is None ==> expiry_text(JsonModel::Object(members)) == text_at(
            members,
            "expires_at"@,
        ),
{
}

/// A token is given out unless the file says a time of expiry that has passed. An
/// expiry that cannot be read does not hold it back.
pub proof fn token_until_it_expires(contents: Seq<char>, json: JsonModel, now: Instant)
    requires
        parsed_json(contents) == Some(json),
    ensures
        cli_token(None, now) is None,
        cli_token(Some(contents), now) == (match expiry_text(json) {
            Some(text) => match rfc3339_instant(text) {
                Some(expiry) => if expiry.secs < now.secs || (expiry.secs == now.secs
                    && expiry.nanos < now.nanos) {
                    None
                } else {
                    stored_token(json)
                },
                None => stored_token(json),
            },
            None => stored_token(json),
        }),
{
}

/// A token with a time of expiry is given out up to that time and not after it;
/// one without is given out at any time.
pub proof fn expiry_decides(json: JsonModel, expiry: Option<Instant>, now: Instant)
    ensures
        expiry is None ==> unexpired_token(json, expiry, now) == stored_token(json),
        expiry matches Some(at) && (at.secs > now.secs || (at.secs == now.secs && at.nanos
            >= now.nanos)) ==> unexpired_token(json, expiry, now) == stored_token(json),
        expiry matches Some(at) && (at.secs < now.secs || (at.secs == now.secs && at.nanos
            < now.nanos)) ==> unexpired_token(json, expiry, now) is None,
        expiry_text(json) matches Some(text) ==> expiry_of(json) == rfc3339_instant(text),
        expiry_text(json) is None ==> expiry_of(json) is None,
{
}

/// A file that holds no JSON gives no token.
pub proof fn no_token_without_json(contents: Seq<char>, now: Instant)
    requires
        parsed_json(contents) is None,
    ensures
        cli_token(Some(contents), now) is None,
{
}

/// What is said of an expiry: that it has passed just where it has, that it
/// cannot be read just where it cannot, and otherwise nothing.
pub proof fn notices_of_an_expiry(text: Seq<char>, expiry: Option<Instant>, now: Instant)
    ensures
        notice_of(None, expiry, now) == NoticeModel::Fine,
        expiry is None ==> notice_of(Some(text), expiry, now) == NoticeModel::Unreadable(text),
        expiry matches Some(at) && (at.secs < now.secs || (at.secs == now.secs && at.nanos
            < now.nanos)) ==> notice_of(Some(text), expiry, now) == NoticeModel::Expired(text),
        expiry matches Some(at) && (at.secs > now.secs || (at.secs == now.secs && at.nanos
            >= now.nanos)) ==> notice_of(Some(text), expiry, now) == NoticeModel::Fine,
{
}

/// The address of a model.
pub proof fn address_of_a_model(model: Seq<char>)
    ensures
        model_url(model) == "https://generativelanguage.googleapis.com/v1beta"@ + "/models/"@
            + model + ":generateContent"@,
{
}

/// A key goes into the query and a token into a header; the rest of the request
/// stays as it is.
pub proof fn credential_in_a_request(request: RequestModel, key: Seq<char>, token: Seq<char>)
    ensures
        ({
            let r = authorized(request, AuthModel::ApiKey(key));
            &&& r.query == request.query.push(("key"@, key))
            &&& r.headers == request.headers
            &&& r.url == request.url
            &&& r.body == request.body
        }),
        ({
            let r = authorized(request, AuthModel::BearerToken(token));
            &&& r.headers == request.headers.push(("Authorization"@, "Bearer "@ + token))
            &&& r.query == request.query
            &&& r.url == request.url
            &&& r.body == request.body
        }),
{
}

/// A conversation is posted to the address of its model, as JSON under the name
/// of the program, with the body of the conversation and one credential: a key
/// in the query or a token in the headers, never both.
pub proof fn request_of_a_conversation(
    auth: AuthModel,
    model: Seq<char>,
    messages: Seq<MessageModel>,
    options: ChatOptions,
)
    ensures
        ({
            let request = chat_request(auth, model, messages, options);
            &&& request.url == model_url(model)
            &&& request.body == messages_body(messages, options)
            &&& request.headers.contains(("Content-Type"@, "application/json"@))
            &&& request.headers.contains(("X-Title"@, "ZeptoClaw"@))
            &&& auth matches AuthModel::ApiKey(key) ==> request.query == seq![("key"@, key)]
                && request.headers.len() == 2
            &&& auth matches AuthModel::BearerToken(token) ==> request.query.len() == 0
                && request.headers.len() == 3 && request.headers[2] == (
                "Authorization"@,
                "Bearer "@ + token,
            )
        }),
{
    let request = chat_request(auth, model, messages, options);
    assert(request.headers[0] == ("Content-Type"@, "application/json"@));
    assert(request.headers[1] == ("X-Title"@, "ZeptoClaw"@));
    assert(auth matches AuthModel::ApiKey(key) ==> request.query =~= seq![("key"@, key)]);
}

/// The text of a part, where it is an object with one.
pub open spec fn part_text(part: JsonModel) -> Option<Seq<char>> {
    match part {
        JsonModel::Object(members) => text_at(members, "text"@),
        _ => None,
    }
}

/// Whether a part is marked as a step of reasoning.
pub open spec fn marked_as_thought(part: JsonModel) -> bool {
    part matches JsonModel::Object(members) && members.dom().contains("thought"@)
        && members["thought"@] == JsonModel::Bool(true)
}

/// The texts that are collected are those of the parts that have one and are, if
/// they have to be, no steps of reasoning, in their order.
pub proof fn texts_of_the_parts(
    parts: Seq<JsonModel>,
    thoughts: bool,
    counts: spec_fn(JsonModel) -> bool,
)
    requires
        forall|p: JsonModel| #[trigger]
            counts(p) == (part_text(p) is Some && (thoughts || !marked_as_thought(p))),
    ensures
        part_texts(parts, thoughts) == parts.filter(counts).map_values(
            |p: JsonModel| part_text(p)->0,
        ),
    decreases parts.len(),
{
    reveal(Seq::filter);
    let text = |p: JsonModel| part_text(p)->0;
    if parts.len() == 0 {
        assert(part_texts(parts, thoughts) =~= parts.filter(counts).map_values(text));
    } else {
        texts_of_the_parts(parts.drop_last(), thoughts, counts);
        assert(counts(parts.last()) == (part_text(parts.last()) is Some && (thoughts
            || !marked_as_thought(parts.last()))));
        assert(part_texts(parts, thoughts) =~= parts.filter(counts).map_values(text));
    }
}

/// Texts one behind the other.
pub open spec fn chained(texts: Seq<Seq<char>>) -> Seq<char>
    decreases texts.len(),
{
    if texts.len() == 0 {
        Seq::empty()
    } else {
        chained(texts.drop_last()) + texts.last()
    }
}

/// Joining with nothing between puts the texts one behind the other.
proof fn joined_without_separator(texts: Seq<Seq<char>>)
    ensures
        crate::text::joined(texts, Seq::empty()) == chained(texts),
    decreases texts.len(),
{
    if texts.len() == 1 {
        assert(texts.drop_last().len() == 0);
        assert(chained(texts.drop_last()) =~= Seq::empty());
        assert(chained(texts) =~= texts[0]);
    } else if texts.len() > 1 {
        joined_without_separator(texts.drop_last());
        assert(crate::text::joined(texts, Seq::empty()) =~= chained(texts));
    }
}

/// An answer is the texts that are no reasoning, one behind the other; where
/// there are none it is all texts, and where there is no text there is none.
pub proof fn answer_is_the_texts(parts: Seq<JsonModel>)
    ensures
        (exists|i: int|
            0 <= i < parts.len() && part_text(#[trigger] parts[i]) is Some && !marked_as_thought(
                parts[i],
            )) ==> answer_text(parts) == Some(
            chained(
                parts.filter(
                    |p: JsonModel| part_text(p) is Some && !marked_as_thought(p),
                ).map_values(|p: JsonModel| part_text(p)->0),
            ),
        ),
        !(exists|i: int|
            0 <= i < parts.len() && part_text(#[trigger] parts[i]) is Some && !marked_as_thought(
                parts[i],
            )) && (exists|i: int| 0 <= i < parts.len() && part_text(#[trigger] parts[i]) is Some)
            ==> answer_text(parts) == Some(
            chained(
                parts.filter(|p: JsonModel| part_text(p) is Some).map_values(
                    |p: JsonModel| part_text(p)->0,
                ),
            ),
        ),
        !(exists|i: int| 0 <= i < parts.len() && part_text(#[trigger] parts[i]) is Some)
            ==> answer_text(parts) is None,
{
    let spoken = |p: JsonModel| part_text(p) is Some && !marked_as_thought(p);
    let any = |p: JsonModel| part_text(p) is Some;
    texts_of_the_parts(parts, false, spoken);
    texts_of_the_parts(parts, true, any);
    kept_where_some_fits(parts, spoken);
    kept_where_some_fits(parts, any);
    joined_without_separator(part_texts(parts, false));
    joined_without_separator(part_texts(parts, true));
}

/// A filter keeps something just where something fits.
proof fn kept_where_some_fits(parts: Seq<JsonModel>, pred: spec_fn(JsonModel) -> bool)
    ensures
        parts.filter(pred).len() > 0 <==> exists|i: int|
            0 <= i < parts.len() && pred(#[trigger] parts[i]),
    decreases parts.len(),
{
    reveal(Seq::filter);
    if parts.len() > 0 {
        let front = parts.drop_last();
        kept_where_some_fits(front, pred);
        if exists|i: int| 0 <= i < front.len() && pred(#[trigger] front[i]) {
            let i = choose|i: int| 0 <= i < front.len() && pred(#[trigger] front[i]);
            assert(pred(parts[i]));
        }
        if exists|i: int| 0 <= i < parts.len() && pred(#[trigger] parts[i]) {
            let i = choose|i: int| 0 <= i < parts.len() && pred(#[trigger] parts[i]);
            if i < front.len() {
                assert(pred(front[i]));
            }
        }
        if pred(parts.last()) {
            assert(pred(parts[parts.len() - 1]));
        }
    }
}

/// The parts of a response are those of the content of its first candidate.
pub proof fn parts_of_a_response(
    response: Map<Seq<char>, JsonModel>,
    candidates: Seq<JsonModel>,
    candidate: Map<Seq<char>, JsonModel>,
    content: Map<Seq<char>, JsonModel>,
    parts: Seq<JsonModel>,
)
    requires
        response.dom().contains("candidates"@),
        response["candidates"@] == JsonModel::Array(candidates),
        candidates.len() > 0,
        candidates[0] == JsonModel::Object(candidate),
        candidate.dom().contains("content"@),
        candidate["content"@] == JsonModel::Object(content),
        content.dom().contains("parts"@),
        content["parts"@] == JsonModel::Array(parts),
    ensures
        response_parts(JsonModel::Object(response)) == Some(parts),
        response_text(JsonModel::Object(response)) == answer_text(parts),
{
}

/// A response without such parts has none, and no text.
pub proof fn response_without_parts(response: JsonModel)
    ensures
        response_parts(response) matches Some(parts) ==> (response matches JsonModel::Object(r)
            && r.dom().contains("candidates"@) && (
        r["candidates"@] matches JsonModel::Array(candidates) && candidates.len() > 0 && (
        candidates[0] matches JsonModel::Object(candidate) && candidate.dom().contains("content"@)
            && (candidate["content"@] matches JsonModel::Object(content) && content.dom().contains(
            "parts"@,
        ) && content["parts"@] == JsonModel::Array(parts))))),
        response_parts(response) is None ==> response_text(response) is None,
{
}

/// What a response says is its text, or nothing, and its usage.
pub proof fn what_a_response_says(response: JsonModel)
    ensures
        response_text(response) matches Some(text) ==> response_of(response).content == text,
        response_text(response) is None ==> response_of(response).content.len() == 0,
        response_of(response).usage == response_usage(response),
{
}

/// The usage of a response is the two counts in its metadata, which have to be
/// there as natural numbers, and their sum, each modulo the range of its type.
pub proof fn usage_of_a_response(
    response: Map<Seq<char>, JsonModel>,
    meta: Map<Seq<char>, JsonModel>,
    prompt: u64,
    completion: u64,
)
    requires
        response.dom().contains("usageMetadata"@),
        response["usageMetadata"@] == JsonModel::Object(meta),
        meta.dom().contains("promptTokenCount"@),
        meta["promptTokenCount"@] == JsonModel::Integer(prompt as int),
        meta.dom().contains("candidatesTokenCount"@),
        meta["candidatesTokenCount"@] == JsonModel::Integer(completion as int),
    ensures
        response_usage(JsonModel::Object(response)) matches Some(u) && u.prompt_tokens == prompt
            % 0x1_0000_0000 && u.completion_tokens == completion % 0x1_0000_0000 && u.total_tokens
            == (prompt + completion) % 0x1_0000_0000,
{
    assert((prompt % 0x1_0000_0000 + completion % 0x1_0000_0000) % 0x1_0000_0000 == (prompt
        + completion) % 0x1_0000_0000);
}

/// A response without the two counts says nothing of its usage.
pub proof fn usage_needs_both_counts(response: JsonModel)
    ensures
        response_usage(response) is Some ==> (response matches JsonModel::Object(r)
            && r.dom().contains("usageMetadata"@) && (
        r["usageMetadata"@] matches JsonModel::Object(meta) && meta.dom().contains(
            "promptTokenCount"@,
        ) && meta.dom().contains("candidatesTokenCount"@) && (
        meta["promptTokenCount"@] matches JsonModel::Integer(p) && 0 <= p
            <= 0xffff_ffff_ffff_ffff) && (
        meta["candidatesTokenCount"@] matches JsonModel::Integer(c) && 0 <= c
            <= 0xffff_ffff_ffff_ffff))),
{
}

/// The total of a usage is the sum of its two counts, modulo the range of its
/// type.
pub proof fn usage_adds_up(prompt: u32, completion: u32)
    ensures
        usage(prompt, completion).prompt_tokens == prompt,
        usage(prompt, completion).completion_tokens == completion,
        usage(prompt, completion).total_tokens == (prompt + completion) % 0x1_0000_0000,
{
}

/// A refusal is told by the message in its body, where that is JSON with one,
/// else by the body itself.
pub proof fn message_of_a_refusal(
    body: Seq<char>,
    json: Map<Seq<char>, JsonModel>,
    error: Map<Seq<char>, JsonModel>,
)
    ensures
        refusal_message(body, None) == "Gemini API error: "@ + body,
        json.dom().contains("error"@) && json["error"@] == JsonModel::Object(error) ==> (
        match text_at(error, "message"@) {
            Some(message) => refusal_message(body, Some(JsonModel::Object(json)))
                == "Gemini API error: "@ + message,
            None => refusal_message(body, Some(JsonModel::Object(json))) == "Gemini API error: "@
                + body,
        }),
        !(json.dom().contains("error"@) && json["error"@] is Object) ==> refusal_message(
            body,
            Some(JsonModel::Object(json)),
        ) == "Gemini API error: "@ + body,
{
}

/// A reply with a status of success is read as a response; any other status is
/// handed on with what is told of it, and a request that failed with the reason.
pub proof fn outcome_of_a_conversation(reason: String, answer: GeminiAnswer)
    ensures
        chat_outcome(GeminiReply::Failed(reason)) == Err::<ResponseModel, ChatErrorModel>(
            ChatErrorModel::Failed(ErrorModel::Provider("Gemini request failed: "@ + reason@)),
        ),
        200 <= answer.status <= 299 ==> (match answer.json {
            Ok(json) => chat_outcome(GeminiReply::Answered(answer)) == Ok::<
                ResponseModel,
                ChatErrorModel,
            >(response_of(json@)),
            Err(why) => chat_outcome(GeminiReply::Answered(answer)) == Err::<
                ResponseModel,
                ChatErrorModel,
            >(
                ChatErrorModel::Failed(
                    ErrorModel::Provider("Failed to parse Gemini response: "@ + why@),
                ),
            ),
        }),
        !(200 <= answer.status <= 299) ==> (match answer.body {
            Some(body) => chat_outcome(GeminiReply::Answered(answer)) == Err::<
                ResponseModel,
                ChatErrorModel,
            >(ChatErrorModel::Api(answer.status, refusal_message(body@, parsed_json(body@)))),
            None => chat_outcome(GeminiReply::Answered(answer)) == Err::<
                ResponseModel,
                ChatErrorModel,
            >(
                ChatErrorModel::Api(
                    answer.status,
                    refusal_message(Seq::empty(), parsed_json(Seq::empty())),
                ),
            ),
        }),
{
}

/// A conversation goes to the model that is named, or to the provider's own where
/// none is, with the credential of the provider.
pub proof fn model_of_a_conversation(
    provider: ProviderModel,
    model: Seq<char>,
    messages: Seq<MessageModel>,
    options: ChatOptions,
)
    ensures
        conversation(provider, Some(model), messages, options) == chat_request(
            provider.auth,
            model,
            messages,
            options,
        ),
        conversation(provider, None, messages, options) == chat_request(
            provider.auth,
            provider.model,
            messages,
            options,
        ),
{
}

} // verus!
