//! The JSON form of messages and histories.

use crate::err::Error;
use crate::functions::{FunctionCall, FunctionCallView};
use crate::json::{json_parse, Json, JsonView};
use crate::text::str_eq;
use crate::types::{
    chunk_of_choice, ChatMessage, ChatMessageView, CompletionError, CompletionResponse,
    CompletionResponseView, InboundChunkChoice, InboundChunkPayload, InboundResponseChunk,
    MessageChoice, MessageChoiceView, ResponseChunkView, Role, ServerResponse, ServerResponseView,
    TokenUsage,
};
use vstd::prelude::*;

verus! {

/// The name of a role in JSON.
pub open spec fn role_name(role: Role) -> Seq<char> {
    match role {
        Role::System => "system"@,
        Role::Assistant => "assistant"@,
        Role::User => "user"@,
        Role::Function => "function"@,
    }
}

/// The role that goes by `name` in JSON.
pub open spec fn role_of_name(name: Seq<char>) -> Option<Role> {
    if name == "system"@ {
        Some(Role::System)
    } else if name == "assistant"@ {
        Some(Role::Assistant)
    } else if name == "user"@ {
        Some(Role::User)
    } else if name == "function"@ {
        Some(Role::Function)
    } else {
        None
    }
}

/// Every role is found again by its name.
pub proof fn lemma_role_names(role: Role)
    ensures
        role_of_name(role_name(role)) == Some(role),
{
    reveal_strlit("system");
    reveal_strlit("assistant");
    reveal_strlit("user");
    reveal_strlit("function");
    assert("system"@.len() == 6);
    assert("assistant"@.len() == 9);
    assert("user"@.len() == 4);
    assert("function"@.len() == 8);
}

impl Role {
    /// The name of the role in JSON.
    pub fn name(&self) -> (r: &'static str)
        ensures
            r@ == role_name(*self),
    {
        match self {
            Role::System => "system",
            Role::Assistant => "assistant",
            Role::User => "user",
            Role::Function => "function",
        }
    }

    /// The role that goes by `name` in JSON.
    pub fn from_name(name: &str) -> (r: Option<Role>)
        ensures
            r == role_of_name(name@),
    {
        if str_eq(name, "system") {
            Some(Role::System)
        } else if str_eq(name, "assistant") {
            Some(Role::Assistant)
        } else if str_eq(name, "user") {
            Some(Role::User)
        } else if str_eq(name, "function") {
            Some(Role::Function)
        } else {
            None
        }
    }
}

/// The JSON object of a function call: `{ "name": .., "arguments": .. }`.
pub open spec fn json_of_call(call: FunctionCallView) -> JsonView {
    JsonView::Object(
        seq![("name"@, JsonView::Text(call.name)), ("arguments"@, JsonView::Text(call.arguments))],
    )
}

/// The function call that a JSON value stands for: an object whose members `name`
/// and `arguments` are strings.
pub open spec fn call_of_json(value: JsonView) -> Option<FunctionCallView> {
    match (value.member("name"@), value.member("arguments"@)) {
        (Some(JsonView::Text(name)), Some(JsonView::Text(arguments))) => Some(
            FunctionCallView { name, arguments },
        ),
        _ => None,
    }
}

/// The JSON of an optional text: the string, or `null`.
pub open spec fn json_of_content(content: Option<Seq<char>>) -> JsonView {
    match content {
        Some(text) => JsonView::Text(text),
        None => JsonView::Null,
    }
}

/// The JSON object of a message: its `role` by name, its `content` as a string or
/// `null`, and its `function_call` where it has one.
pub open spec fn json_of_message(message: ChatMessageView) -> JsonView {
    let head = seq![
        ("role"@, JsonView::Text(role_name(message.role))),
        ("content"@, json_of_content(message.content)),
    ];
    JsonView::Object(
        match message.function_call {
            Some(call) => head.push(("function_call"@, json_of_call(call))),
            None => head,
        },
    )
}

/// The message that a JSON value stands for: an object whose `role` names a role,
/// whose `content` is a string, `null` or missing, and whose `function_call` is a
/// function call, `null` or missing.
pub open spec fn message_of_json(value: JsonView) -> Option<ChatMessageView> {
    let role = match value.member("role"@) {
        Some(JsonView::Text(name)) => role_of_name(name),
        _ => None,
    };
    let content = match value.member("content"@) {
        None => Some(None),
        Some(JsonView::Null) => Some(None),
        Some(JsonView::Text(text)) => Some(Some(text)),
        _ => None,
    };
    let function_call = match value.member("function_call"@) {
        None => Some(None),
        Some(JsonView::Null) => Some(None),
        Some(call) => match call_of_json(call) {
            Some(call) => Some(Some(call)),
            None => None,
        },
    };
    match (role, content, function_call) {
        (Some(role), Some(content), Some(function_call)) => Some(
            ChatMessageView { role, content, function_call },
        ),
        _ => None,
    }
}

/// The JSON array of a history: the objects of its messages, in order.
pub open spec fn json_of_history(history: Seq<ChatMessageView>) -> JsonView {
    JsonView::Array(Seq::new(history.len(), |i: int| json_of_message(history[i])))
}

/// The history that a JSON value stands for: an array whose items all stand for
/// messages.
pub open spec fn history_of_json(value: JsonView) -> Option<Seq<ChatMessageView>> {
    match value {
        JsonView::Array(items) => if forall|i: int|
            0 <= i < items.len() ==> (#[trigger] message_of_json(items[i])) is Some {
            Some(Seq::new(items.len(), |i: int| message_of_json(items[i])->0))
        } else {
            None
        },
        _ => None,
    }
}

/// The names of the members of a message are told apart.
proof fn lemma_member_names()
    ensures
        "role"@ != "content"@,
        "role"@ != "function_call"@,
        "content"@ != "function_call"@,
        "name"@ != "arguments"@,
{
    reveal_strlit("role");
    reveal_strlit("content");
    reveal_strlit("function_call");
    reveal_strlit("name");
    reveal_strlit("arguments");
    assert("role"@.len() == 4);
    assert("content"@.len() == 7);
    assert("function_call"@.len() == 13);
    assert("name"@.len() == 4);
    assert("arguments"@.len() == 9);
}

/// A function call is read back from its JSON object as it was.
pub proof fn lemma_call_round_trip(call: FunctionCallView)
    ensures
        call_of_json(json_of_call(call)) == Some(call),
{
    lemma_member_names();
    let entries = json_of_call(call)->Object_0;
    assert(entries.drop_first()[0] == entries[1]);
    reveal_with_fuel(crate::json::find_member, 3);
}

/// A message is read back from its JSON object as it was.
pub proof fn law_message_round_trip(message: ChatMessageView)
    ensures
        message_of_json(json_of_message(message)) == Some(message),
{
    lemma_member_names();
    lemma_role_names(message.role);
    let entries = json_of_message(message)->Object_0;
    reveal_with_fuel(crate::json::find_member, 4);
    assert(entries.drop_first()[0] == entries[1]);
    assert(entries.drop_first().drop_first().len() == entries.len() - 2);
    match message.function_call {
        Some(call) => {
            lemma_call_round_trip(call);
            assert(entries.drop_first().drop_first()[0] == entries[2]);
            assert(entries.drop_first().drop_first().drop_first().len() == 0);
        },
        None => {},
    }
}

/// A history that is written as JSON and read back is the same history, message
/// by message.
pub proof fn law_history_round_trip(history: Seq<ChatMessageView>)
    ensures
        history_of_json(json_of_history(history)) == Some(history),
{
    let items = json_of_history(history)->Array_0;
    assert forall|i: int| 0 <= i < items.len() implies (#[trigger] message_of_json(items[i]))
        == Some(history[i]) by {
        law_message_round_trip(history[i]);
    }
    assert(Seq::new(items.len(), |i: int| message_of_json(items[i])->0) =~= history);
}

impl FunctionCall {
    /// The JSON object of the call.
    pub fn to_json(&self) -> (r: Json)
        ensures
            r@ == json_of_call(self@),
    {
        let mut entries: Vec<(String, Json)> = Vec::new();
        entries.push(("name".to_owned(), Json::text(self.name.as_str())));
        entries.push(("arguments".to_owned(), Json::text(self.arguments.as_str())));
        let r = Json::Object(entries);
        proof {
            assert(r@->Object_0 =~= json_of_call(self@)->Object_0);
        }
        r
    }

    /// The call that a JSON value stands for.
    pub fn from_json(value: &Json) -> (r: Option<FunctionCall>)
        ensures
            r.deep_view() == call_of_json(value@),
    {
        let name = match value.member("name") {
            Some(Json::Text(name)) => name.clone(),
            _ => {
                return None;
            },
        };
        let arguments = match value.member("arguments") {
            Some(Json::Text(arguments)) => arguments.clone(),
            _ => {
                return None;
            },
        };
        Some(FunctionCall { name, arguments })
    }
}

impl ChatMessage {
    /// The JSON object of the message.
    pub fn to_json(&self) -> (r: Json)
        ensures
            r@ == json_of_message(self@),
    {
        let mut entries: Vec<(String, Json)> = Vec::new();
        entries.push(("role".to_owned(), Json::text(self.role.name())));
        let content = match &self.content {
            Some(text) => Json::text(text.as_str()),
            None => Json::Null,
        };
        assert(content@ == json_of_content(self.content.deep_view()));
        entries.push(("content".to_owned(), content));
        match &self.function_call {
            Some(call) => {
                entries.push(("function_call".to_owned(), call.to_json()));
            },
            None => {},
        }
        let r = Json::Object(entries);
        proof {
            assert(r@->Object_0 =~= json_of_message(self@)->Object_0);
        }
        r
    }

    /// The message that a JSON value stands for.
    pub fn from_json(value: &Json) -> (r: Option<ChatMessage>)
        ensures
            r.deep_view() == message_of_json(value@),
    {
        let role = match value.member("role") {
            Some(Json::Text(name)) => Role::from_name(name.as_str()),
            _ => None,
        };
        let content = match value.member("content") {
            None => Some(None),
            Some(Json::Null) => Some(None),
            Some(Json::Text(text)) => Some(Some(text.clone())),
            _ => None,
        };
        let function_call = match value.member("function_call") {
            None => Some(None),
            Some(Json::Null) => Some(None),
            Some(call) => match FunctionCall::from_json(call) {
                Some(call) => Some(Some(call)),
                None => None,
            },
        };
        match (role, content, function_call) {
            (Some(role), Some(content), Some(function_call)) => Some(
                ChatMessage { role, content, function_call },
            ),
            _ => None,
        }
    }
}

/// The JSON array of a history.
pub fn history_to_json(history: &Vec<ChatMessage>) -> (r: Json)
    ensures
        r@ == json_of_history(history.deep_view()),
{
    let mut items: Vec<Json> = Vec::new();
    let mut i: usize = 0;
    while i < history.len()
        invariant
            i <= history@.len(),
            items@.len() == i,
            forall|k: int| 0 <= k < i ==> (#[trigger] items@[k])@ == json_of_message(history@[k]@),
        decreases history@.len() - i,
    {
        items.push(history[i].to_json());
        i = i + 1;
    }
    let r = Json::Array(items);
    proof {
        assert(r@->Array_0 =~= json_of_history(history.deep_view())->Array_0);
    }
    r
}

/// The history that a JSON value stands for.
pub fn history_from_json(value: &Json) -> (r: Option<Vec<ChatMessage>>)
    ensures
        r.deep_view() == history_of_json(value@),
{
    let items = match value {
        Json::Array(items) => items,
        _ => {
            return None;
        },
    };
    let ghost views = value@->Array_0;
    let mut history: Vec<ChatMessage> = Vec::new();
    let mut i: usize = 0;
    while i < items.len()
        invariant
            i <= items@.len(),
            value@ == JsonView::Array(views),
            views.len() == items@.len(),
            forall|k: int| 0 <= k < items@.len() ==> #[trigger] views[k] == items@[k]@,
            history@.len() == i,
            forall|k: int|
                0 <= k < i ==> message_of_json(views[k]) == Some((#[trigger] history@[k])@),
        decreases items@.len() - i,
    {
        match ChatMessage::from_json(&items[i]) {
            Some(message) => {
                history.push(message);
            },
            None => {
                proof {
                    assert(message_of_json(views[i as int]) is None);
                }
                return None;
            },
        }
        i = i + 1;
    }
    proof {
        assert forall|k: int| 0 <= k < views.len() implies (#[trigger] message_of_json(
            views[k],
        )) is Some by {
            assert(message_of_json(views[k]) == Some(history@[k]@));
        }
        assert(history.deep_view() =~= history_of_json(value@)->0);
    }
    Some(history)
}

/// The index that a JSON value stands for: a number written with decimal digits
/// alone that fits the machine's index type.
pub open spec fn index_of_json(value: Option<JsonView>) -> Option<usize> {
    match value {
        Some(number) => match number.unsigned() {
            Some(n) => if n <= usize::MAX {
                Some(n as usize)
            } else {
                None
            },
            None => None,
        },
        None => None,
    }
}

/// The 32-bit count that a JSON value stands for.
pub open spec fn count_of_json(value: Option<JsonView>) -> Option<u32> {
    match value {
        Some(number) => match number.unsigned() {
            Some(n) => if n <= u32::MAX {
                Some(n as u32)
            } else {
                None
            },
            None => None,
        },
        None => None,
    }
}

/// The role that the payload `delta` of a streamed choice announces: its member
/// `role`, where that names a role.
pub open spec fn announced_role(delta: JsonView) -> Option<Role> {
    match delta.member("role"@) {
        Some(JsonView::Text(name)) => role_of_name(name),
        _ => None,
    }
}

/// The chunk that the payload `delta` of a streamed choice stands for, tried in
/// this order: the beginning of a response where `role` names a role, a piece of
/// text where `content` is a string, the end of a response for any other object.
pub open spec fn chunk_of_delta(delta: JsonView, index: usize) -> Option<ResponseChunkView> {
    match announced_role(delta) {
        Some(role) => Some(ResponseChunkView::BeginResponse { role, response_index: index }),
        None => match text_of_json(delta.member("content"@)) {
            Some(text) => Some(ResponseChunkView::Content { delta: text, response_index: index }),
            None => if delta is Object {
                Some(ResponseChunkView::CloseResponse { response_index: index })
            } else {
                None
            },
        },
    }
}

/// The chunk that one choice of a streamed event stands for: what its `delta`
/// holds, under its `index`.
pub open spec fn chunk_of_choice_json(choice: JsonView) -> Option<ResponseChunkView> {
    match (index_of_json(choice.member("index"@)), choice.member("delta"@)) {
        (Some(index), Some(delta)) => chunk_of_delta(delta, index),
        _ => None,
    }
}

/// The chunks that the choices of a streamed event stand for; `None` where the
/// event has no array `choices` or one of the choices stands for no chunk.
pub open spec fn chunks_of_event_json(event: JsonView) -> Option<Seq<ResponseChunkView>> {
    match event.member("choices"@) {
        Some(JsonView::Array(choices)) => if forall|i: int|
            0 <= i < choices.len() ==> (#[trigger] chunk_of_choice_json(choices[i])) is Some {
            Some(Seq::new(choices.len(), |i: int| chunk_of_choice_json(choices[i])->0))
        } else {
            None
        },
        _ => None,
    }
}

/// The number that `value` stands for, where it fits the machine's index type.
fn index_from_json(value: Option<&Json>) -> (r: Option<usize>)
    ensures
        r == index_of_json(value.deep_view()),
{
    match value {
        Some(number) => match number.as_unsigned() {
            Some(n) => if n <= usize::MAX as u64 {
                Some(n as usize)
            } else {
                None
            },
            None => None,
        },
        None => None,
    }
}

/// The number that `value` stands for, where it fits 32 bits.
fn count_from_json(value: Option<&Json>) -> (r: Option<u32>)
    ensures
        r == count_of_json(value.deep_view()),
{
    match value {
        Some(number) => match number.as_unsigned() {
            Some(n) => if n <= u32::MAX as u64 {
                Some(n as u32)
            } else {
                None
            },
            None => None,
        },
        None => None,
    }
}

impl InboundChunkChoice {
    /// The choice that a JSON value stands for.
    pub fn from_json(value: &Json) -> (r: Option<InboundChunkChoice>)
        ensures
            match r {
                Some(choice) => chunk_of_choice_json(value@) == Some(chunk_of_choice(choice)),
                None => chunk_of_choice_json(value@) is None,
            },
    {
        let index = match index_from_json(value.member("index")) {
            Some(index) => index,
            None => {
                return None;
            },
        };
        let delta = match value.member("delta") {
            Some(delta) => delta,
            None => {
                return None;
            },
        };
        match delta.member("role") {
            Some(Json::Text(name)) => match Role::from_name(name.as_str()) {
                Some(role) => {
                    return Some(
                        InboundChunkChoice { delta: InboundChunkPayload::AnnounceRoles { role }, index },
                    );
                },
                None => {},
            },
            _ => {},
        }
        match delta.member("content") {
            Some(Json::Text(text)) => {
                return Some(
                    InboundChunkChoice {
                        delta: InboundChunkPayload::StreamContent { content: text.clone() },
                        index,
                    },
                );
            },
            _ => {},
        }
        match delta {
            Json::Object(_) => Some(InboundChunkChoice { delta: InboundChunkPayload::Close {  }, index }),
            _ => None,
        }
    }
}

impl InboundResponseChunk {
    /// The streamed event that a JSON value stands for.
    pub fn from_json(value: &Json) -> (r: Option<InboundResponseChunk>)
        ensures
            match r {
                Some(event) => chunks_of_event_json(value@) == Some(
                    Seq::new(event.choices@.len(), |i: int| chunk_of_choice(event.choices@[i])),
                ),
                None => chunks_of_event_json(value@) is None,
            },
    {
        let items = match value.member("choices") {
            Some(Json::Array(items)) => items,
            _ => {
                return None;
            },
        };
        let ghost views = value@.member("choices"@)->0->Array_0;
        let mut choices: Vec<InboundChunkChoice> = Vec::new();
        let mut i: usize = 0;
        while i < items.len()
            invariant
                i <= items@.len(),
                value@.member("choices"@) == Some(JsonView::Array(views)),
                views.len() == items@.len(),
                forall|k: int| 0 <= k < items@.len() ==> #[trigger] views[k] == items@[k]@,
                choices@.len() == i,
                forall|k: int|
                    0 <= k < i ==> chunk_of_choice_json(views[k]) == Some(
                        chunk_of_choice(#[trigger] choices@[k]),
                    ),
            decreases items@.len() - i,
        {
            match InboundChunkChoice::from_json(&items[i]) {
                Some(choice) => {
                    choices.push(choice);
                },
                None => {
                    proof {
                        assert(chunk_of_choice_json(views[i as int]) is None);
                    }
                    return None;
                },
            }
            i = i + 1;
        }
        proof {
            assert forall|k: int| 0 <= k < views.len() implies (#[trigger] chunk_of_choice_json(
                views[k],
            )) is Some by {
                assert(chunk_of_choice_json(views[k]) == Some(chunk_of_choice(choices@[k])));
            }
            assert(chunks_of_event_json(value@)->0 =~= Seq::new(
                choices@.len(),
                |i: int| chunk_of_choice(choices@[i]),
            ));
        }
        Some(InboundResponseChunk { choices })
    }
}

/// The text of a member that has to be a string.
pub open spec fn text_of_json(value: Option<JsonView>) -> Option<Seq<char>> {
    match value {
        Some(JsonView::Text(text)) => Some(text),
        _ => None,
    }
}

/// The text of a member that may be a string, `null` or missing; `None` where it
/// is anything else.
pub open spec fn optional_text_of_json(value: Option<JsonView>) -> Option<Option<Seq<char>>> {
    match value {
        None => Some(None),
        Some(JsonView::Null) => Some(None),
        Some(JsonView::Text(text)) => Some(Some(text)),
        _ => None,
    }
}

/// The number of a member that may be an unsigned number, `null` or missing;
/// `None` where it is anything else.
pub open spec fn optional_number_of_json(value: Option<JsonView>) -> Option<Option<u64>> {
    match value {
        None => Some(None),
        Some(JsonView::Null) => Some(None),
        Some(number) => match number.unsigned() {
            Some(n) => Some(Some(n)),
            None => None,
        },
    }
}

/// The token usage that a JSON value stands for: an object with the three counts.
pub open spec fn usage_of_json(value: Option<JsonView>) -> Option<TokenUsage> {
    match value {
        Some(usage) => match (
            count_of_json(usage.member("prompt_tokens"@)),
            count_of_json(usage.member("completion_tokens"@)),
            count_of_json(usage.member("total_tokens"@)),
        ) {
            (Some(prompt_tokens), Some(completion_tokens), Some(total_tokens)) => Some(
                TokenUsage { prompt_tokens, completion_tokens, total_tokens },
            ),
            _ => None,
        },
        None => None,
    }
}

/// The choice of a completion that a JSON value stands for: an object with a
/// `message`, a `finish_reason` and an `index`.
pub open spec fn choice_of_json(value: JsonView) -> Option<MessageChoiceView> {
    match (
        value.member("message"@),
        text_of_json(value.member("finish_reason"@)),
        count_of_json(value.member("index"@)),
    ) {
        (Some(message), Some(finish_reason), Some(index)) => match message_of_json(message) {
            Some(message) => Some(MessageChoiceView { message, finish_reason, index }),
            None => None,
        },
        _ => None,
    }
}

/// The choices that a JSON value stands for: an array whose items all stand for
/// choices.
pub open spec fn choices_of_json(value: Option<JsonView>) -> Option<Seq<MessageChoiceView>> {
    match value {
        Some(JsonView::Array(items)) => if forall|i: int|
            0 <= i < items.len() ==> (#[trigger] choice_of_json(items[i])) is Some {
            Some(Seq::new(items.len(), |i: int| choice_of_json(items[i])->0))
        } else {
            None
        },
        _ => None,
    }
}

/// The completion that a JSON value stands for: an object with `model`, `usage`
/// and `choices`, and with `id` and `created` where the service sends them.
pub open spec fn completion_of_json(value: JsonView) -> Option<CompletionResponseView> {
    match (
        optional_text_of_json(value.member("id"@)),
        optional_number_of_json(value.member("created"@)),
        text_of_json(value.member("model"@)),
        usage_of_json(value.member("usage"@)),
        choices_of_json(value.member("choices"@)),
    ) {
        (
            Some(message_id),
            Some(created_timestamp),
            Some(model),
            Some(usage),
            Some(message_choices),
        ) => Some(
            CompletionResponseView { message_id, created_timestamp, model, usage, message_choices },
        ),
        _ => None,
    }
}

/// The failure that a JSON value reports: an object whose member `error` holds a
/// `message` and a `type`.
pub open spec fn failure_of_json(value: JsonView) -> Option<ServerResponseView> {
    match value.member("error"@) {
        Some(error) => match (
            text_of_json(error.member("message"@)),
            text_of_json(error.member("type"@)),
        ) {
            (Some(message), Some(error_type)) => Some(
                ServerResponseView::Error { message, error_type },
            ),
            _ => None,
        },
        None => None,
    }
}

/// The answer of the service that a JSON value stands for: a failure where it
/// reports one, a completion otherwise.
pub open spec fn response_of_json(value: JsonView) -> Option<ServerResponseView> {
    match failure_of_json(value) {
        Some(failure) => Some(failure),
        None => match completion_of_json(value) {
            Some(completion) => Some(ServerResponseView::Completion(completion)),
            None => None,
        },
    }
}

/// The answer of the service that the document `text` holds.
pub open spec fn response_of_text(text: Seq<char>) -> Option<ServerResponseView> {
    match json_parse(text) {
        Some(value) => response_of_json(value),
        None => None,
    }
}

fn text_from_json(value: Option<&Json>) -> (r: Option<String>)
    ensures
        r.deep_view() == text_of_json(value.deep_view()),
{
    match value {
        Some(Json::Text(text)) => Some(text.clone()),
        _ => None,
    }
}

fn optional_text_from_json(value: Option<&Json>) -> (r: Option<Option<String>>)
    ensures
        r.deep_view() == optional_text_of_json(value.deep_view()),
{
    match value {
        None => Some(None),
        Some(Json::Null) => Some(None),
        Some(Json::Text(text)) => Some(Some(text.clone())),
        _ => None,
    }
}

fn optional_number_from_json(value: Option<&Json>) -> (r: Option<Option<u64>>)
    ensures
        r == optional_number_of_json(value.deep_view()),
{
    match value {
        None => Some(None),
        Some(Json::Null) => Some(None),
        Some(number) => match number.as_unsigned() {
            Some(n) => Some(Some(n)),
            None => None,
        },
    }
}

fn usage_from_json(value: Option<&Json>) -> (r: Option<TokenUsage>)
    ensures
        r == usage_of_json(value.deep_view()),
{
    let usage = match value {
        Some(usage) => usage,
        None => {
            return None;
        },
    };
    match (
        count_from_json(usage.member("prompt_tokens")),
        count_from_json(usage.member("completion_tokens")),
        count_from_json(usage.member("total_tokens")),
    ) {
        (Some(prompt_tokens), Some(completion_tokens), Some(total_tokens)) => Some(
            TokenUsage { prompt_tokens, completion_tokens, total_tokens },
        ),
        _ => None,
    }
}

impl MessageChoice {
    /// The choice of a completion that a JSON value stands for.
    pub fn from_json(value: &Json) -> (r: Option<MessageChoice>)
        ensures
            r.deep_view() == choice_of_json(value@),
    {
        let message = match value.member("message") {
            Some(message) => message,
            None => {
                return None;
            },
        };
        let finish_reason = match text_from_json(value.member("finish_reason")) {
            Some(finish_reason) => finish_reason,
            None => {
                return None;
            },
        };
        let index = match count_from_json(value.member("index")) {
            Some(index) => index,
            None => {
                return None;
            },
        };
        match ChatMessage::from_json(message) {
            Some(message) => Some(MessageChoice { message, finish_reason, index }),
            None => None,
        }
    }
}

fn choices_from_json(value: Option<&Json>) -> (r: Option<Vec<MessageChoice>>)
    ensures
        r.deep_view() == choices_of_json(value.deep_view()),
{
    let items = match value {
        Some(Json::Array(items)) => items,
        _ => {
            return None;
        },
    };
    let ghost views = value.deep_view()->0->Array_0;
    let mut choices: Vec<MessageChoice> = Vec::new();
    let mut i: usize = 0;
    while i < items.len()
        invariant
            i <= items@.len(),
            value.deep_view() == Some(JsonView::Array(views)),
            views.len() == items@.len(),
            forall|k: int| 0 <= k < items@.len() ==> #[trigger] views[k] == items@[k]@,
            choices@.len() == i,
            forall|k: int| 0 <= k < i ==> choice_of_json(views[k]) == Some((#[trigger] choices@[k])@),
        decreases items@.len() - i,
    {
        match MessageChoice::from_json(&items[i]) {
            Some(choice) => {
                choices.push(choice);
            },
            None => {
                proof {
                    assert(choice_of_json(views[i as int]) is None);
                }
                return None;
            },
        }
        i = i + 1;
    }
    proof {
        assert forall|k: int| 0 <= k < views.len() implies (#[trigger] choice_of_json(views[k])) is Some by {
            assert(choice_of_json(views[k]) == Some(choices@[k]@));
        }
        assert(choices.deep_view() =~= choices_of_json(value.deep_view())->0);
    }
    Some(choices)
}

impl CompletionResponse {
    /// The completion that a JSON value stands for.
    pub fn from_json(value: &Json) -> (r: Option<CompletionResponse>)
        ensures
            r.deep_view() == completion_of_json(value@),
    {
        let message_id = match optional_text_from_json(value.member("id")) {
            Some(message_id) => message_id,
            None => {
                return None;
            },
        };
        let created_timestamp = match optional_number_from_json(value.member("created")) {
            Some(created_timestamp) => created_timestamp,
            None => {
                return None;
            },
        };
        let model = match text_from_json(value.member("model")) {
            Some(model) => model,
            None => {
                return None;
            },
        };
        let usage = match usage_from_json(value.member("usage")) {
            Some(usage) => usage,
            None => {
                return None;
            },
        };
        let message_choices = match choices_from_json(value.member("choices")) {
            Some(message_choices) => message_choices,
            None => {
                return None;
            },
        };
        Some(CompletionResponse { message_id, created_timestamp, model, usage, message_choices })
    }
}

impl ServerResponse {
    /// The answer of the service that a JSON value stands for.
    pub fn from_json(value: &Json) -> (r: Option<ServerResponse>)
        ensures
            r.deep_view() == response_of_json(value@),
    {
        match value.member("error") {
            Some(error) => {
                match (
                    text_from_json(error.member("message")),
                    text_from_json(error.member("type")),
                ) {
                    (Some(message), Some(error_type)) => {
                        return Some(
                            ServerResponse::Error { error: CompletionError { message, error_type } },
                        );
                    },
                    _ => {},
                }
            },
            None => {},
        }
        match CompletionResponse::from_json(value) {
            Some(completion) => Some(ServerResponse::Completion(completion)),
            None => None,
        }
    }

    /// The answer of the service that the body `text` holds. A body that is no
    /// JSON document, or whose document is no answer, is refused with
    /// [`Error::SerdeJsonError`].
    pub fn from_text(text: &str) -> (r: Result<ServerResponse, Error>)
        ensures
            match response_of_text(text@) {
                Some(response) => r matches Ok(found) && found@ == response,
                None => r matches Err(Error::SerdeJsonError(detail)) && detail@
                    == "The body is no answer of the service"@,
            },
    {
        let parsed = Json::parse(text);
        let answer = match &parsed {
            Some(value) => ServerResponse::from_json(value),
            None => None,
        };
        match answer {
            Some(response) => Ok(response),
            None => Err(Error::SerdeJsonError("The body is no answer of the service".to_owned())),
        }
    }
}

} // verus!
