//! Messages, completions and streamed chunks exchanged with the service.

use crate::err::Error;
use crate::functions::{FunctionCall, FunctionCallView};
use crate::text::clone_text;
use vstd::prelude::*;

verus! {

/// Who sent a message.
#[derive(Debug, Clone, Copy, PartialEq, Eq, Structural, PartialOrd, Ord, Hash)]
pub enum Role {
    /// The directing message that opens a conversation and sets the tone.
    System,
    /// A message of the model.
    Assistant,
    /// A message of the user.
    User,
    /// The result of a function that the model asked for.
    Function,
}

/// One message of a conversation.
#[derive(Debug, PartialEq, Eq)]
pub struct ChatMessage {
    /// Role of the sender.
    pub role: Role,
    /// The text; absent only where the message is nothing but a function call.
    pub content: Option<String>,
    /// The function call that the model attempted, if any.
    pub function_call: Option<FunctionCall>,
}

/// What a [`ChatMessage`] holds.
pub struct ChatMessageView {
    pub role: Role,
    pub content: Option<Seq<char>>,
    pub function_call: Option<FunctionCallView>,
}

impl DeepView for ChatMessage {
    type V = ChatMessageView;

    open spec fn deep_view(&self) -> ChatMessageView {
        ChatMessageView {
            role: self.role,
            content: self.content.deep_view(),
            function_call: self.function_call.deep_view(),
        }
    }
}

impl View for ChatMessage {
    type V = ChatMessageView;

    open spec fn view(&self) -> ChatMessageView {
        self.deep_view()
    }
}

impl Clone for ChatMessage {
    fn clone(&self) -> (r: Self)
        ensures
            r == *self,
    {
        let function_call = match &self.function_call {
            Some(call) => Some(call.clone()),
            None => None,
        };
        ChatMessage { role: self.role, content: clone_text(&self.content), function_call }
    }
}

impl ChatMessageView {
    /// The data-model rule of a message: the result of a function has a text that
    /// is not empty, and only the model's own messages carry a function call.
    pub open spec fn well_formed(self) -> bool {
        &&& self.role == Role::Function ==> (self.content matches Some(text) && text.len() > 0)
        &&& self.function_call is Some ==> self.role == Role::Assistant
    }
}

impl ChatMessage {
    /// A message of plain text, without a function call.
    pub fn new(role: Role, content: String) -> (r: Self)
        ensures
            r == (ChatMessage { role, content: Some(content), function_call: None }),
            r@.well_formed() <==> (role != Role::Function || content@.len() > 0),
    {
        ChatMessage { role, content: Some(content), function_call: None }
    }

    /// Whether the message meets the data-model rule of messages.
    pub fn is_well_formed(&self) -> (r: bool)
        ensures
            r == self@.well_formed(),
    {
        let texted = match &self.content {
            Some(text) => !text.as_str().is_empty(),
            None => false,
        };
        let called = self.function_call.is_some();
        let result_rule = match self.role {
            Role::Function => texted,
            _ => true,
        };
        let call_rule = match self.role {
            Role::Assistant => true,
            _ => !called,
        };
        result_rule && call_rule
    }
}

/// One unit of a streamed answer.
#[derive(Debug, PartialEq, Eq)]
pub enum ResponseChunk {
    /// A piece of the text of a response.
    Content {
        /// The piece of text.
        delta: String,
        /// Which of the parallel responses the piece belongs to.
        response_index: usize,
    },
    /// A response begins; it has no text yet.
    BeginResponse {
        /// Role of the respondent, usually `Assistant`.
        role: Role,
        /// Which of the parallel responses begins.
        response_index: usize,
    },
    /// A response has ended.
    CloseResponse {
        /// Which of the parallel responses has ended.
        response_index: usize,
    },
    /// The whole stream has ended.
    Done,
}

/// What a [`ResponseChunk`] holds.
pub enum ResponseChunkView {
    Content { delta: Seq<char>, response_index: usize },
    BeginResponse { role: Role, response_index: usize },
    CloseResponse { response_index: usize },
    Done,
}

impl DeepView for ResponseChunk {
    type V = ResponseChunkView;

    open spec fn deep_view(&self) -> ResponseChunkView {
        match self {
            ResponseChunk::Content { delta, response_index } => ResponseChunkView::Content {
                delta: delta@,
                response_index: *response_index,
            },
            ResponseChunk::BeginResponse { role, response_index } => ResponseChunkView::BeginResponse {
                role: *role,
                response_index: *response_index,
            },
            ResponseChunk::CloseResponse { response_index } => ResponseChunkView::CloseResponse {
                response_index: *response_index,
            },
            ResponseChunk::Done => ResponseChunkView::Done,
        }
    }
}

impl View for ResponseChunk {
    type V = ResponseChunkView;

    open spec fn view(&self) -> ResponseChunkView {
        self.deep_view()
    }
}

impl Clone for ResponseChunk {
    fn clone(&self) -> (r: Self)
        ensures
            r == *self,
    {
        match self {
            ResponseChunk::Content { delta, response_index } => ResponseChunk::Content {
                delta: delta.clone(),
                response_index: *response_index,
            },
            ResponseChunk::BeginResponse { role, response_index } => ResponseChunk::BeginResponse {
                role: *role,
                response_index: *response_index,
            },
            ResponseChunk::CloseResponse { response_index } => ResponseChunk::CloseResponse {
                response_index: *response_index,
            },
            ResponseChunk::Done => ResponseChunk::Done,
        }
    }
}

/// What the service reports when it cannot complete a request.
#[derive(Debug, Clone, PartialEq, Eq)]
pub struct CompletionError {
    /// Message describing the failure.
    pub message: String,
    /// The class of the failure, such as `server_error`.
    pub error_type: String,
}

/// The token usage of one completion.
#[derive(Debug, Clone, Copy, PartialEq, Eq, Structural)]
pub struct TokenUsage {
    /// Tokens spent on the prompt, earlier messages included.
    pub prompt_tokens: u32,
    /// Tokens spent on the completion.
    pub completion_tokens: u32,
    /// Tokens spent in all.
    pub total_tokens: u32,
}

/// One candidate answer of a completion.
#[derive(Debug, PartialEq, Eq)]
pub struct MessageChoice {
    /// The message itself.
    pub message: ChatMessage,
    /// Why the model stopped.
    pub finish_reason: String,
    /// Position of this choice among the choices of its completion.
    pub index: u32,
}

/// What a [`MessageChoice`] holds.
pub struct MessageChoiceView {
    pub message: ChatMessageView,
    pub finish_reason: Seq<char>,
    pub index: u32,
}

impl DeepView for MessageChoice {
    type V = MessageChoiceView;

    open spec fn deep_view(&self) -> MessageChoiceView {
        MessageChoiceView {
            message: self.message@,
            finish_reason: self.finish_reason@,
            index: self.index,
        }
    }
}

impl View for MessageChoice {
    type V = MessageChoiceView;

    open spec fn view(&self) -> MessageChoiceView {
        self.deep_view()
    }
}

impl Clone for MessageChoice {
    fn clone(&self) -> (r: Self)
        ensures
            r == *self,
    {
        MessageChoice {
            message: self.message.clone(),
            finish_reason: self.finish_reason.clone(),
            index: self.index,
        }
    }
}

/// A completion as the service returns it in one piece.
#[derive(Debug, Clone, PartialEq, Eq)]
pub struct CompletionResponse {
    /// Identifier of the completion, such as `chatcmpl-6p5FEv1JHictSSnDZsGU4KvbuBsbu`.
    pub message_id: Option<String>,
    /// When the completion was made, in seconds since the Unix epoch.
    pub created_timestamp: Option<u64>,
    /// The model that answered.
    pub model: String,
    /// What the completion cost.
    pub usage: TokenUsage,
    /// The candidate answers; the service sends at least one.
    pub message_choices: Vec<MessageChoice>,
}

/// What a [`CompletionResponse`] holds.
pub struct CompletionResponseView {
    pub message_id: Option<Seq<char>>,
    pub created_timestamp: Option<u64>,
    pub model: Seq<char>,
    pub usage: TokenUsage,
    pub message_choices: Seq<MessageChoiceView>,
}

impl DeepView for CompletionResponse {
    type V = CompletionResponseView;

    open spec fn deep_view(&self) -> CompletionResponseView {
        CompletionResponseView {
            message_id: self.message_id.deep_view(),
            created_timestamp: self.created_timestamp,
            model: self.model@,
            usage: self.usage,
            message_choices: self.message_choices.deep_view(),
        }
    }
}

impl View for CompletionResponse {
    type V = CompletionResponseView;

    open spec fn view(&self) -> CompletionResponseView {
        self.deep_view()
    }
}

impl CompletionResponse {
    /// The message of the first choice.
    pub fn message(&self) -> (r: &ChatMessage)
        requires
            self.message_choices@.len() > 0,
        ensures
            *r == self.message_choices@[0].message,
    {
        &self.message_choices[0].message
    }
}

/// What the service answers to a request for a completion.
#[derive(Debug, Clone, PartialEq, Eq)]
pub enum ServerResponse {
    /// The request failed; most often the model was overloaded.
    Error {
        /// The failure.
        error: CompletionError,
    },
    /// The request was completed.
    Completion(CompletionResponse),
}

/// What a [`ServerResponse`] holds.
pub enum ServerResponseView {
    Error { message: Seq<char>, error_type: Seq<char> },
    Completion(CompletionResponseView),
}

impl DeepView for ServerResponse {
    type V = ServerResponseView;

    open spec fn deep_view(&self) -> ServerResponseView {
        match self {
            ServerResponse::Error { error } => ServerResponseView::Error {
                message: error.message@,
                error_type: error.error_type@,
            },
            ServerResponse::Completion(completion) => ServerResponseView::Completion(completion@),
        }
    }
}

impl View for ServerResponse {
    type V = ServerResponseView;

    open spec fn view(&self) -> ServerResponseView {
        self.deep_view()
    }
}

impl ServerResponse {
    /// The completion, or the service's failure as a [`Error::BackendError`] with
    /// the same message and class.
    pub fn into_result(self) -> (r: Result<CompletionResponse, Error>)
        ensures
            match self {
                ServerResponse::Error { error } => r == Err::<CompletionResponse, Error>(
                    Error::BackendError { message: error.message, error_type: error.error_type },
                ),
                ServerResponse::Completion(completion) => r == Ok::<CompletionResponse, Error>(
                    completion,
                ),
            },
    {
        match self {
            ServerResponse::Error { error } => Err(
                Error::BackendError { message: error.message, error_type: error.error_type },
            ),
            ServerResponse::Completion(completion) => Ok(completion),
        }
    }
}

/// What one choice of a streamed event carries.
#[derive(Debug, Clone, PartialEq, Eq)]
pub enum InboundChunkPayload {
    /// A message begins; its sender is announced.
    AnnounceRoles {
        /// The announced role, usually `Assistant`.
        role: Role,
    },
    /// A piece of the text of a message.
    StreamContent {
        /// The piece of text.
        content: String,
    },
    /// A message ends.
    Close {},
}

/// One choice of a streamed event.
#[derive(Debug, Clone, PartialEq, Eq)]
pub struct InboundChunkChoice {
    /// What the choice carries.
    pub delta: InboundChunkPayload,
    /// Which of the parallel responses the choice belongs to.
    pub index: usize,
}

/// One streamed event as the service sends it.
#[derive(Debug, Clone, PartialEq, Eq)]
pub struct InboundResponseChunk {
    /// The choices of the event; usually one.
    pub choices: Vec<InboundChunkChoice>,
}

/// The chunk that a choice of a streamed event stands for.
pub open spec fn chunk_of_choice(choice: InboundChunkChoice) -> ResponseChunkView {
    match choice.delta {
        InboundChunkPayload::AnnounceRoles { role } => ResponseChunkView::BeginResponse {
            role,
            response_index: choice.index,
        },
        InboundChunkPayload::StreamContent { content } => ResponseChunkView::Content {
            delta: content@,
            response_index: choice.index,
        },
        InboundChunkPayload::Close {  } => ResponseChunkView::CloseResponse {
            response_index: choice.index,
        },
    }
}

impl ResponseChunk {
    /// The chunk that a streamed event stands for. Only the first choice of the
    /// event counts; an event without choices breaks the protocol.
    pub fn from_inbound(data: &InboundResponseChunk) -> (r: Result<ResponseChunk, Error>)
        ensures
            data.choices@.len() > 0 ==> (r matches Ok(chunk) && chunk.deep_view()
                == chunk_of_choice(data.choices@[0])),
            data.choices@.len() == 0 ==> (r matches Err(Error::MalformedStream(detail)) && detail@
                == "Invalid inbound streaming response payload!"@),
    {
        if data.choices.len() == 0 {
            return Err(
                Error::MalformedStream("Invalid inbound streaming response payload!".to_owned()),
            );
        }
        let choice = &data.choices[0];
        Ok(
            match &choice.delta {
                InboundChunkPayload::AnnounceRoles { role } => ResponseChunk::BeginResponse {
                    role: *role,
                    response_index: choice.index,
                },
                InboundChunkPayload::StreamContent { content } => ResponseChunk::Content {
                    delta: content.clone(),
                    response_index: choice.index,
                },
                InboundChunkPayload::Close {  } => ResponseChunk::CloseResponse {
                    response_index: choice.index,
                },
            },
        )
    }
}

} // verus!
