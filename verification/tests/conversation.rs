use chatgpt::converse::Conversation;
use chatgpt::dispatch::{DispatchAction, DispatchState, Dispatcher};
use chatgpt::err::Error;
use chatgpt::functions::{
    FunctionCall, FunctionCallError, FunctionDescriptor, FunctionValidationStrategy, GptFunction,
};
use chatgpt::json::Json;
use chatgpt::types::{
    ChatMessage, CompletionError, CompletionResponse, MessageChoice, Role, ServerResponse,
    TokenUsage,
};

fn message(role: Role, text: &str) -> ChatMessage {
    ChatMessage { role, content: Some(text.to_string()), function_call: None }
}

fn call_message(name: &str, arguments: &str) -> ChatMessage {
    ChatMessage {
        role: Role::Assistant,
        content: None,
        function_call: Some(FunctionCall {
            name: name.to_string(),
            arguments: arguments.to_string(),
        }),
    }
}

fn completion(reply: ChatMessage) -> CompletionResponse {
    CompletionResponse {
        message_id: Some("chatcmpl-1".to_string()),
        created_timestamp: Some(1),
        model: "gpt-3.5-turbo".to_string(),
        usage: TokenUsage { prompt_tokens: 1, completion_tokens: 2, total_tokens: 3 },
        message_choices: vec![MessageChoice {
            message: reply,
            finish_reason: "stop".to_string(),
            index: 0,
        }],
    }
}

fn answered(reply: ChatMessage) -> Result<ServerResponse, Error> {
    Ok(ServerResponse::Completion(completion(reply)))
}

#[test]
fn new_conversation_opens_with_the_directing_message() {
    let conversation: Conversation<u8> = Conversation::new("You are X".to_string());
    assert_eq!(conversation.history, vec![message(Role::System, "You are X")]);
    assert!(!conversation.always_send_functions);
    assert_eq!(conversation.function_validation, FunctionValidationStrategy::Loose);
    assert_eq!(conversation.functions.len(), 0);
}

#[test]
fn send_and_answer_are_recorded_in_order() {
    let mut conversation: Conversation<u8> = Conversation::new("You are X".to_string());
    let mut dispatcher = Dispatcher::new();
    assert_eq!(
        dispatcher.send(&mut conversation, Role::User, "a".to_string(), false),
        DispatchAction::Request { with_functions: false }
    );
    assert_eq!(dispatcher.state, DispatchState::AwaitingReply);
    let action = dispatcher.reply(&mut conversation, answered(message(Role::Assistant, "b")));
    assert_eq!(action, DispatchAction::Complete(completion(message(Role::Assistant, "b"))));
    assert_eq!(dispatcher.state, DispatchState::Done);
    assert!(dispatcher.is_finished());
    assert_eq!(
        conversation.snapshot(),
        &vec![
            message(Role::System, "You are X"),
            message(Role::User, "a"),
            message(Role::Assistant, "b"),
        ]
    );
}

#[test]
fn rollback_takes_back_the_last_exchange() {
    let mut conversation: Conversation<u8> = Conversation::new("You are X".to_string());
    let mut dispatcher = Dispatcher::new();
    dispatcher.send(&mut conversation, Role::User, "a".to_string(), false);
    dispatcher.reply(&mut conversation, answered(message(Role::Assistant, "b")));
    assert_eq!(conversation.rollback(), Some(message(Role::Assistant, "b")));
    assert_eq!(conversation.history, vec![message(Role::System, "You are X")]);
}

#[test]
fn rollback_on_the_directing_message_alone_removes_nothing() {
    let mut conversation: Conversation<u8> = Conversation::new("You are X".to_string());
    assert_eq!(conversation.rollback(), None);
    assert_eq!(conversation.history, vec![message(Role::System, "You are X")]);
    conversation.append(message(Role::User, "a"));
    assert_eq!(conversation.rollback(), None);
    assert_eq!(conversation.history.len(), 2);
}

#[test]
fn strict_validation_corrects_a_failed_call() {
    let mut conversation: Conversation<u8> = Conversation::new("You are X".to_string());
    conversation.function_validation = FunctionValidationStrategy::Strict;
    let mut dispatcher = Dispatcher::new();
    assert_eq!(
        dispatcher.send(&mut conversation, Role::User, "greet".to_string(), true),
        DispatchAction::Request { with_functions: true }
    );
    let action = dispatcher.reply(&mut conversation, answered(call_message("f", "{\"x\":")));
    assert_eq!(
        action,
        DispatchAction::Invoke(FunctionCall {
            name: "f".to_string(),
            arguments: "{\"x\":".to_string()
        })
    );
    assert_eq!(dispatcher.state, DispatchState::AwaitingFunctionResult);
    let action =
        dispatcher.function_result(&mut conversation, Err(FunctionCallError::InvalidArguments));
    assert_eq!(action, DispatchAction::Request { with_functions: true });
    assert_eq!(dispatcher.state, DispatchState::AwaitingReply);
    let action = dispatcher.reply(&mut conversation, answered(message(Role::Assistant, "sorry")));
    assert_eq!(action, DispatchAction::Complete(completion(message(Role::Assistant, "sorry"))));
    assert_eq!(
        conversation.history,
        vec![
            message(Role::System, "You are X"),
            message(Role::User, "greet"),
            call_message("f", "{\"x\":"),
            message(
                Role::System,
                "Invalid function call: invalid arguments given to this function"
            ),
            message(Role::Assistant, "sorry"),
        ]
    );
}

#[test]
fn loose_validation_ends_the_turn_at_the_failed_call() {
    let mut conversation: Conversation<u8> = Conversation::new("You are X".to_string());
    let mut dispatcher = Dispatcher::new();
    dispatcher.send(&mut conversation, Role::User, "greet".to_string(), true);
    dispatcher.reply(&mut conversation, answered(call_message("f", "{\"x\":")));
    let action = dispatcher.function_result(&mut conversation, Err(FunctionCallError::InvalidArguments));
    assert_eq!(action, DispatchAction::NoReply);
    assert_eq!(dispatcher.state, DispatchState::ValidationFailed);
    assert!(dispatcher.is_finished());
    assert_eq!(
        conversation.history,
        vec![
            message(Role::System, "You are X"),
            message(Role::User, "greet"),
            call_message("f", "{\"x\":"),
        ]
    );
}

#[test]
fn function_result_goes_back_to_the_model() {
    let mut conversation: Conversation<u8> = Conversation::new("You are X".to_string());
    conversation.always_send_functions = true;
    let mut dispatcher = Dispatcher::new();
    assert_eq!(
        dispatcher.send(&mut conversation, Role::User, "greet".to_string(), false),
        DispatchAction::Request { with_functions: true }
    );
    dispatcher.reply(&mut conversation, answered(call_message("say_hello", "{\"name\":\"maxus\"}")));
    let mut result = serde_json::Map::new();
    result.insert("greeted".to_string(), serde_json::Value::Bool(true));
    let action =
        dispatcher.function_returned(&mut conversation, Ok(serde_json::Value::Object(result)));
    assert_eq!(action, DispatchAction::Request { with_functions: true });
    assert_eq!(
        conversation.history.last(),
        Some(&message(Role::Function, "{\"greeted\":true}"))
    );
    let action = dispatcher.reply(&mut conversation, answered(message(Role::Assistant, "done")));
    assert_eq!(action, DispatchAction::Complete(completion(message(Role::Assistant, "done"))));
    assert_eq!(conversation.history.len(), 5);
}

#[test]
fn an_inner_error_is_reported_with_its_text() {
    let mut conversation: Conversation<u8> = Conversation::new("You are X".to_string());
    conversation.function_validation = FunctionValidationStrategy::Strict;
    let mut dispatcher = Dispatcher::new();
    dispatcher.send(&mut conversation, Role::User, "greet".to_string(), false);
    dispatcher.reply(&mut conversation, answered(call_message("f", "{}")));
    dispatcher.function_returned(&mut conversation, Err(Error::IOError("disk".to_string())));
    assert_eq!(
        conversation.history.last(),
        Some(&message(
            Role::System,
            "Exception encountered when calling function: Error happened during an IO operation: disk"
        ))
    );
}

#[test]
fn a_json_error_of_the_run_is_the_function_s_own_failure() {
    let mut conversation: Conversation<u8> = Conversation::new("You are X".to_string());
    conversation.function_validation = FunctionValidationStrategy::Strict;
    let mut dispatcher = Dispatcher::new();
    dispatcher.send(&mut conversation, Role::User, "greet".to_string(), false);
    dispatcher.reply(&mut conversation, answered(call_message("f", "{}")));
    let action = dispatcher.function_returned(
        &mut conversation,
        Err(Error::SerdeJsonError("EOF while parsing".to_string())),
    );
    assert_eq!(action, DispatchAction::Request { with_functions: false });
    assert_eq!(
        conversation.history.last(),
        Some(&message(
            Role::System,
            "Exception encountered when calling function: Failed to (de)serialize data: EOF while parsing"
        ))
    );
}

#[test]
fn a_value_of_the_library_goes_back_to_the_model_as_its_document() {
    let mut conversation: Conversation<u8> = Conversation::new("You are X".to_string());
    let mut dispatcher = Dispatcher::new();
    dispatcher.send(&mut conversation, Role::User, "greet".to_string(), false);
    dispatcher.reply(&mut conversation, answered(call_message("f", "{}")));
    let value = Json::Object(vec![
        ("b".to_string(), Json::Array(vec![Json::Null, Json::Number("2".to_string())])),
        ("a".to_string(), Json::Text("x".to_string())),
    ]);
    let action = dispatcher.function_value(&mut conversation, &value);
    assert_eq!(action, DispatchAction::Request { with_functions: false });
    assert_eq!(dispatcher.state, DispatchState::AwaitingReply);
    assert_eq!(
        conversation.history.last(),
        Some(&message(Role::Function, "{\"a\":\"x\",\"b\":[null,2]}"))
    );
}

#[test]
fn a_value_without_a_document_ends_the_turn() {
    let mut conversation: Conversation<u8> = Conversation::new("You are X".to_string());
    conversation.function_validation = FunctionValidationStrategy::Strict;
    let mut dispatcher = Dispatcher::new();
    dispatcher.send(&mut conversation, Role::User, "greet".to_string(), false);
    dispatcher.reply(&mut conversation, answered(call_message("f", "{}")));
    let action = dispatcher.function_value(&mut conversation, &Json::Number("one".to_string()));
    assert_eq!(action, DispatchAction::NoReply);
    assert_eq!(dispatcher.state, DispatchState::ValidationFailed);
    assert_eq!(conversation.history.len(), 3);
}

#[test]
fn failures_of_the_service_and_of_the_transport_end_the_turn() {
    let mut conversation: Conversation<u8> = Conversation::new("You are X".to_string());
    let mut dispatcher = Dispatcher::new();
    dispatcher.send(&mut conversation, Role::User, "a".to_string(), false);
    let action = dispatcher.reply(
        &mut conversation,
        Ok(ServerResponse::Error {
            error: CompletionError {
                message: "overloaded".to_string(),
                error_type: "server_error".to_string(),
            },
        }),
    );
    assert_eq!(
        action,
        DispatchAction::Abort(Error::BackendError {
            message: "overloaded".to_string(),
            error_type: "server_error".to_string(),
        })
    );
    assert_eq!(dispatcher.state, DispatchState::Done);
    assert_eq!(conversation.history.len(), 2);

    let mut dispatcher = Dispatcher::new();
    dispatcher.send(&mut conversation, Role::User, "b".to_string(), false);
    let action =
        dispatcher.reply(&mut conversation, Err(Error::ClientError("timed out".to_string())));
    assert_eq!(action, DispatchAction::Abort(Error::ClientError("timed out".to_string())));
    assert_eq!(conversation.history.len(), 3);
}

#[test]
fn a_completion_without_choices_ends_the_turn() {
    let mut conversation: Conversation<u8> = Conversation::new("You are X".to_string());
    let mut dispatcher = Dispatcher::new();
    dispatcher.send(&mut conversation, Role::User, "a".to_string(), false);
    let mut empty = completion(message(Role::Assistant, "b"));
    empty.message_choices.clear();
    let action = dispatcher.reply(&mut conversation, Ok(ServerResponse::Completion(empty)));
    assert_eq!(
        action,
        DispatchAction::Abort(Error::ParsingError(
            "The completion holds no message choice".to_string()
        ))
    );
    assert_eq!(conversation.history.len(), 2);
}

#[test]
fn steps_out_of_turn_are_rejected() {
    let mut conversation: Conversation<u8> = Conversation::new("You are X".to_string());
    let mut dispatcher = Dispatcher::new();
    assert_eq!(
        dispatcher.reply(&mut conversation, answered(message(Role::Assistant, "b"))),
        DispatchAction::Rejected
    );
    assert_eq!(
        dispatcher.function_result(&mut conversation, Ok("1".to_string())),
        DispatchAction::Rejected
    );
    assert_eq!(
        dispatcher.function_returned(&mut conversation, Ok(serde_json::Value::Null)),
        DispatchAction::Rejected
    );
    assert_eq!(dispatcher.function_value(&mut conversation, &Json::Null), DispatchAction::Rejected);
    dispatcher.send(&mut conversation, Role::User, "a".to_string(), false);
    assert_eq!(
        dispatcher.send(&mut conversation, Role::User, "again".to_string(), false),
        DispatchAction::Rejected
    );
    assert_eq!(conversation.history.len(), 2);
    assert_eq!(dispatcher.state, DispatchState::AwaitingReply);
}

#[test]
fn functions_are_added_once() {
    let mut conversation: Conversation<u8> = Conversation::new("You are X".to_string());
    let function = |name: &str| GptFunction {
        descriptor: FunctionDescriptor {
            name: name.to_string(),
            description: "Says hello".to_string(),
            parameters: Json::Object(vec![]),
        },
        callable: 7u8,
    };
    assert_eq!(conversation.add_function(function("say_hello")), Ok(()));
    assert_eq!(
        conversation.add_function(function("say_hello")),
        Err(Error::DuplicateFunction("say_hello".to_string()))
    );
    assert_eq!(conversation.functions.lookup("say_hello").unwrap().callable, 7);
}

#[test]
fn history_survives_saving_and_restoring() {
    let mut conversation: Conversation<u8> = Conversation::new("You are \"X\"\n".to_string());
    conversation.append(message(Role::User, "a"));
    conversation.append(call_message("f", "{\"x\": 1}"));
    conversation.append(message(Role::Function, "true"));
    conversation.append(message(Role::Assistant, "b"));
    let saved = conversation.save_history_json().unwrap();
    let restored: Conversation<u8> = Conversation::restore_history_json(&saved).unwrap();
    assert_eq!(restored.snapshot(), conversation.snapshot());
}

#[test]
fn a_document_that_is_no_history_is_refused() {
    let restored: Result<Conversation<u8>, Error> = Conversation::restore_history_json("{}");
    assert_eq!(
        restored.err(),
        Some(Error::SerdeJsonError("The document holds no history".to_string()))
    );
    let restored: Result<Conversation<u8>, Error> =
        Conversation::restore_history_json("[{\"role\": \"nobody\", \"content\": \"a\"}]");
    assert!(restored.is_err());
    let restored: Result<Conversation<u8>, Error> = Conversation::restore_history_json("[");
    assert!(restored.is_err());
}

#[test]
fn a_history_recorded_earlier_is_taken_as_it_is() {
    let history = vec![message(Role::System, "You are X"), message(Role::User, "a")];
    let conversation: Conversation<u8> = Conversation::new_with_history(history.clone());
    assert_eq!(conversation.history, history);
}

#[test]
fn well_formed_messages_are_told_from_others() {
    assert!(message(Role::User, "").is_well_formed());
    assert!(message(Role::Function, "true").is_well_formed());
    assert!(!message(Role::Function, "").is_well_formed());
    assert!(call_message("f", "{}").is_well_formed());
    let mut wrong = call_message("f", "{}");
    wrong.role = Role::User;
    assert!(!wrong.is_well_formed());
    assert!(!ChatMessage { role: Role::Function, content: None, function_call: None }
        .is_well_formed());
}
