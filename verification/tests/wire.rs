use chatgpt::err::Error;
use chatgpt::functions::FunctionCall;
use chatgpt::json::Json;
use chatgpt::types::{
    ChatMessage, CompletionError, CompletionResponse, InboundChunkChoice, InboundChunkPayload,
    InboundResponseChunk, MessageChoice, Role, ServerResponse, TokenUsage,
};
use chatgpt::wire::{history_from_json, history_to_json};

#[test]
fn roles_go_by_their_names() {
    for (role, name) in [
        (Role::System, "system"),
        (Role::Assistant, "assistant"),
        (Role::User, "user"),
        (Role::Function, "function"),
    ] {
        assert_eq!(role.name(), name);
        assert_eq!(Role::from_name(name), Some(role));
    }
    assert_eq!(Role::from_name("System"), None);
}

#[test]
fn a_message_is_written_as_the_service_reads_it() {
    let message = ChatMessage {
        role: Role::Assistant,
        content: None,
        function_call: Some(FunctionCall { name: "f".to_string(), arguments: "{}".to_string() }),
    };
    assert_eq!(
        message.to_json().print().unwrap(),
        "{\"content\":null,\"function_call\":{\"arguments\":\"{}\",\"name\":\"f\"},\"role\":\"assistant\"}"
    );
    let plain = ChatMessage::new(Role::User, "hi".to_string());
    assert_eq!(plain.to_json().print().unwrap(), "{\"content\":\"hi\",\"role\":\"user\"}");
}

#[test]
fn a_message_is_read_back_as_it_was_written() {
    let messages = vec![
        ChatMessage::new(Role::System, "You are X".to_string()),
        ChatMessage {
            role: Role::Assistant,
            content: None,
            function_call: Some(FunctionCall {
                name: "f".to_string(),
                arguments: "{\"a\": [1, 2]}".to_string(),
            }),
        },
        ChatMessage::new(Role::Function, "\"ok\"".to_string()),
    ];
    for message in &messages {
        assert_eq!(ChatMessage::from_json(&message.to_json()).as_ref(), Some(message));
    }
    let text = history_to_json(&messages).print().unwrap();
    let read = history_from_json(&Json::parse(&text).unwrap());
    assert_eq!(read, Some(messages));
}

#[test]
fn a_message_with_a_wrong_member_is_refused() {
    for text in [
        "{\"content\":\"hi\"}",
        "{\"role\":\"user\",\"content\":3}",
        "{\"role\":\"owner\",\"content\":\"hi\"}",
        "{\"role\":\"assistant\",\"function_call\":{\"name\":\"f\"}}",
        "[]",
    ] {
        assert_eq!(ChatMessage::from_json(&Json::parse(text).unwrap()), None);
    }
    assert_eq!(
        ChatMessage::from_json(&Json::parse("{\"role\":\"user\"}").unwrap()),
        Some(ChatMessage { role: Role::User, content: None, function_call: None })
    );
}

#[test]
fn a_completion_is_read_from_the_body() {
    let body = "{\"id\":\"chatcmpl-6p5FEv1JHictSSnDZsGU4KvbuBsbu\",\"object\":\"chat.completion\",\
        \"created\":1677693600,\"model\":\"gpt-3.5-turbo\",\
        \"usage\":{\"prompt_tokens\":9,\"completion_tokens\":12,\"total_tokens\":21},\
        \"choices\":[{\"message\":{\"role\":\"assistant\",\"content\":\"b\"},\
        \"finish_reason\":\"stop\",\"index\":0}]}";
    let expected = CompletionResponse {
        message_id: Some("chatcmpl-6p5FEv1JHictSSnDZsGU4KvbuBsbu".to_string()),
        created_timestamp: Some(1677693600),
        model: "gpt-3.5-turbo".to_string(),
        usage: TokenUsage { prompt_tokens: 9, completion_tokens: 12, total_tokens: 21 },
        message_choices: vec![MessageChoice {
            message: ChatMessage::new(Role::Assistant, "b".to_string()),
            finish_reason: "stop".to_string(),
            index: 0,
        }],
    };
    let response = ServerResponse::from_text(body).unwrap();
    assert_eq!(response, ServerResponse::Completion(expected));
    match response.into_result() {
        Ok(completion) => assert_eq!(completion.message().content, Some("b".to_string())),
        Err(e) => panic!("unexpected {e:?}"),
    }
}

#[test]
fn a_failure_is_read_from_the_body() {
    let body = "{\"error\":{\"message\":\"That model is currently overloaded\",\
        \"type\":\"server_error\",\"param\":null,\"code\":null}}";
    let response = ServerResponse::from_text(body).unwrap();
    assert_eq!(
        response,
        ServerResponse::Error {
            error: CompletionError {
                message: "That model is currently overloaded".to_string(),
                error_type: "server_error".to_string(),
            }
        }
    );
    assert_eq!(
        response.into_result(),
        Err(Error::BackendError {
            message: "That model is currently overloaded".to_string(),
            error_type: "server_error".to_string(),
        })
    );
}

#[test]
fn a_body_that_is_no_answer_is_refused() {
    let refused = Err(Error::SerdeJsonError("The body is no answer of the service".to_string()));
    assert_eq!(ServerResponse::from_text("<html>"), refused);
    assert_eq!(ServerResponse::from_text("{\"model\":\"m\"}"), refused);
    assert_eq!(
        ServerResponse::from_text(
            "{\"model\":\"m\",\"usage\":{\"prompt_tokens\":4294967296,\"completion_tokens\":0,\
             \"total_tokens\":0},\"choices\":[]}"
        ),
        refused
    );
    assert_eq!(
        ServerResponse::from_text(
            "{\"model\":\"m\",\"usage\":{\"prompt_tokens\":4294967295,\"completion_tokens\":0,\
             \"total_tokens\":0},\"choices\":[]}"
        ),
        Ok(ServerResponse::Completion(CompletionResponse {
            message_id: None,
            created_timestamp: None,
            model: "m".to_string(),
            usage: TokenUsage { prompt_tokens: 4294967295, completion_tokens: 0, total_tokens: 0 },
            message_choices: vec![],
        }))
    );
}

#[test]
fn a_streamed_event_is_read_with_all_its_choices() {
    let event = Json::parse(
        "{\"choices\":[{\"delta\":{\"role\":\"assistant\"},\"index\":0},\
         {\"delta\":{\"content\":\"x\"},\"index\":1},{\"delta\":{},\"index\":2},\
         {\"delta\":{\"role\":\"tool\",\"content\":\"y\"},\"index\":3}]}",
    )
    .unwrap();
    assert_eq!(
        InboundResponseChunk::from_json(&event),
        Some(InboundResponseChunk {
            choices: vec![
                InboundChunkChoice {
                    delta: InboundChunkPayload::AnnounceRoles { role: Role::Assistant },
                    index: 0
                },
                InboundChunkChoice {
                    delta: InboundChunkPayload::StreamContent { content: "x".to_string() },
                    index: 1
                },
                InboundChunkChoice { delta: InboundChunkPayload::Close {}, index: 2 },
                InboundChunkChoice {
                    delta: InboundChunkPayload::StreamContent { content: "y".to_string() },
                    index: 3
                },
            ]
        })
    );
    assert_eq!(InboundResponseChunk::from_json(&Json::parse("{}").unwrap()), None);
    assert_eq!(
        InboundChunkChoice::from_json(&Json::parse("{\"delta\":{},\"index\":\"0\"}").unwrap()),
        None
    );
}
