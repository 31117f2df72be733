use chatgpt::err::Error;
use chatgpt::types::{ChatMessage, ResponseChunk, Role};

#[test]
fn streamed_hello_assembles_to_one_message() {
    let chunks = vec![
        ResponseChunk::BeginResponse { role: Role::Assistant, response_index: 0 },
        ResponseChunk::Content { delta: "Hel".to_string(), response_index: 0 },
        ResponseChunk::Content { delta: "lo".to_string(), response_index: 0 },
        ResponseChunk::CloseResponse { response_index: 0 },
        ResponseChunk::Done,
    ];
    let messages = ChatMessage::from_response_chunks(chunks).unwrap();
    assert_eq!(
        messages,
        vec![ChatMessage {
            role: Role::Assistant,
            content: Some("Hello".to_string()),
            function_call: None
        }]
    );
}

#[test]
fn content_without_begin_is_refused() {
    let chunks = vec![ResponseChunk::Content { delta: "x".to_string(), response_index: 0 }];
    assert_eq!(ChatMessage::from_response_chunks(chunks), Err(Error::InvalidChunkSequence));
}

#[test]
fn responses_come_out_in_the_order_in_which_they_were_begun() {
    let chunks = vec![
        ResponseChunk::BeginResponse { role: Role::Assistant, response_index: 1 },
        ResponseChunk::BeginResponse { role: Role::User, response_index: 0 },
        ResponseChunk::Content { delta: "one".to_string(), response_index: 1 },
        ResponseChunk::Content { delta: "zero".to_string(), response_index: 0 },
        ResponseChunk::Content { delta: "!".to_string(), response_index: 1 },
    ];
    assert_eq!(
        ChatMessage::from_response_chunks(chunks),
        Ok(vec![
            ChatMessage {
                role: Role::Assistant,
                content: Some("one!".to_string()),
                function_call: None
            },
            ChatMessage { role: Role::User, content: Some("zero".to_string()), function_call: None },
        ])
    );
}

#[test]
fn text_goes_to_the_response_begun_last_under_an_index() {
    let chunks = vec![
        ResponseChunk::BeginResponse { role: Role::Assistant, response_index: 0 },
        ResponseChunk::Content { delta: "a".to_string(), response_index: 0 },
        ResponseChunk::BeginResponse { role: Role::Assistant, response_index: 0 },
        ResponseChunk::Content { delta: "b".to_string(), response_index: 0 },
    ];
    let messages = ChatMessage::from_response_chunks(chunks).unwrap();
    assert_eq!(messages.len(), 2);
    assert_eq!(messages[0].content, Some("a".to_string()));
    assert_eq!(messages[1].content, Some("b".to_string()));
}

#[test]
fn closings_and_endings_are_passed_over() {
    let chunks = vec![ResponseChunk::CloseResponse { response_index: 7 }, ResponseChunk::Done];
    assert_eq!(ChatMessage::from_response_chunks(chunks), Ok(vec![]));
    assert_eq!(ChatMessage::from_response_chunks(vec![]), Ok(vec![]));
}

#[test]
fn text_for_another_index_than_the_one_begun_is_refused() {
    let chunks = vec![
        ResponseChunk::BeginResponse { role: Role::Assistant, response_index: 0 },
        ResponseChunk::Content { delta: "x".to_string(), response_index: 1 },
    ];
    assert_eq!(ChatMessage::from_response_chunks(chunks), Err(Error::InvalidChunkSequence));
}
