//! What most users of the library need.

pub use crate::config::ChatGPTEngine;
pub use crate::converse::Conversation;
pub use crate::dispatch::{DispatchAction, DispatchState, Dispatcher};
pub use crate::err::Error;
pub use crate::functions::{FunctionDescriptor, FunctionValidationStrategy, GptFunction};
pub use crate::stream::{Dialect, FrameDecoder, FrameEvent};
pub use crate::types::{ChatMessage, MessageChoice, ResponseChunk, Role, TokenUsage};
