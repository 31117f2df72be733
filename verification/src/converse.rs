//! The state of one conversation: its messages in order, and its functions.

use crate::err::Error;
use crate::functions::{
    has_function, FunctionRegistry, FunctionValidationStrategy, GptFunction,
};
use crate::json::{json_parse, json_print, Json};
use crate::types::{ChatMessage, ChatMessageView, Role};
use crate::wire::{history_from_json, history_of_json, history_to_json, json_of_history};
use vstd::prelude::*;

verus! {

/// One conversation: the messages sent and received, oldest first, and the
/// functions that the model may call in it.
///
/// The service keeps no state, so the whole history is sent with every request.
/// The history opens with the directing message and grows at its end; only
/// [`Conversation::rollback`] takes messages away.
#[derive(Debug)]
pub struct Conversation<C> {
    /// All the messages sent and received, starting with the directing message.
    pub history: Vec<ChatMessage>,
    /// Whether every request carries the registered functions. They count as
    /// tokens, so this is off unless asked for.
    pub always_send_functions: bool,
    /// How a failed function call is answered.
    pub function_validation: FunctionValidationStrategy,
    /// The functions that the model may call.
    pub functions: FunctionRegistry<C>,
}

/// Whether a history opens with a directing message.
pub open spec fn has_seed(history: Seq<ChatMessageView>) -> bool {
    history.len() >= 1 && history[0].role == Role::System
}

/// The history after a rollback: without its last two messages where at least two
/// follow the directing message, unchanged otherwise.
pub open spec fn rolled_back(history: Seq<ChatMessageView>) -> Seq<ChatMessageView> {
    if history.len() >= 3 {
        history.take(history.len() - 2)
    } else {
        history
    }
}

/// The reply that a rollback removes and hands back, if it removes anything.
pub open spec fn rolled_back_reply(history: Seq<ChatMessageView>) -> Option<ChatMessageView> {
    if history.len() >= 3 {
        Some(history.last())
    } else {
        None
    }
}

impl<C> Conversation<C> {
    /// A conversation that opens with the directing message `first_message`. It
    /// has no functions, does not send functions unasked, and ignores failed
    /// function calls.
    pub fn new(first_message: String) -> (r: Self)
        ensures
            r.history@ == seq![
                ChatMessage { role: Role::System, content: Some(first_message), function_call: None },
            ],
            has_seed(r.history.deep_view()),
            !r.always_send_functions,
            r.function_validation == FunctionValidationStrategy::Loose,
            r.functions.functions() == Seq::<GptFunction<C>>::empty(),
            r.functions.well_formed(),
    {
        let mut history: Vec<ChatMessage> = Vec::new();
        history.push(ChatMessage::new(Role::System, first_message));
        Conversation {
            history,
            always_send_functions: false,
            function_validation: FunctionValidationStrategy::Loose,
            functions: FunctionRegistry::new(),
        }
    }

    /// A conversation that goes on from a history recorded earlier.
    pub fn new_with_history(history: Vec<ChatMessage>) -> (r: Self)
        ensures
            r.history == history,
            !r.always_send_functions,
            r.function_validation == FunctionValidationStrategy::Loose,
            r.functions.functions() == Seq::<GptFunction<C>>::empty(),
            r.functions.well_formed(),
    {
        Conversation {
            history,
            always_send_functions: false,
            function_validation: FunctionValidationStrategy::Loose,
            functions: FunctionRegistry::new(),
        }
    }

    /// Adds a message at the end of the history.
    pub fn append(&mut self, message: ChatMessage)
        ensures
            final(self).history@ == old(self).history@.push(message),
            final(self).history.deep_view() == old(self).history.deep_view().push(message@),
            final(self).always_send_functions == old(self).always_send_functions,
            final(self).function_validation == old(self).function_validation,
            final(self).functions == old(self).functions,
    {
        self.history.push(message);
        proof {
            assert(self.history.deep_view() =~= old(self).history.deep_view().push(message@));
        }
    }

    /// Takes back the last exchange: removes the last two messages, a message sent
    /// and the reply to it, and hands back the reply. Where fewer than two messages
    /// follow the directing message nothing is removed and `None` is returned.
    pub fn rollback(&mut self) -> (r: Option<ChatMessage>)
        ensures
            final(self).history.deep_view() == rolled_back(old(self).history.deep_view()),
            r.deep_view() == rolled_back_reply(old(self).history.deep_view()),
            old(self).history@.len() >= 3 ==> r == Some(old(self).history@.last())
                && final(self).history@ == old(self).history@.take(old(self).history@.len() - 2),
            old(self).history@.len() < 3 ==> r is None && final(self).history@ == old(self).history@,
            final(self).always_send_functions == old(self).always_send_functions,
            final(self).function_validation == old(self).function_validation,
            final(self).functions == old(self).functions,
    {
        if self.history.len() < 3 {
            return None;
        }
        let last = self.history.pop();
        self.history.pop();
        proof {
            let before = old(self).history@;
            assert(self.history@ =~= before.take(before.len() - 2));
            assert(self.history.deep_view() =~= old(self).history.deep_view().take(
                before.len() - 2,
            ));
        }
        last
    }

    /// The whole history in order, as it is sent to the service.
    pub fn snapshot(&self) -> (r: &Vec<ChatMessage>)
        ensures
            *r == self.history,
    {
        &self.history
    }

    /// The JSON document of the history, as it is kept between sessions: the array
    /// of the messages in order. Where the history cannot be written the error is
    /// an [`Error::SerdeJsonError`].
    pub fn save_history_json(&self) -> (r: Result<String, Error>)
        ensures
            match json_print(json_of_history(self.history.deep_view())) {
                Some(document) => r matches Ok(text) && text@ == document,
                None => r matches Err(Error::SerdeJsonError(detail)) && detail@
                    == "The history cannot be written as JSON"@,
            },
    {
        match history_to_json(&self.history).print() {
            Some(text) => Ok(text),
            None => Err(Error::SerdeJsonError("The history cannot be written as JSON".to_owned())),
        }
    }

    /// A conversation that goes on from the history that the JSON document `text`
    /// holds. A text that is no JSON document, or whose document is no array of
    /// messages, is refused with an [`Error::SerdeJsonError`].
    pub fn restore_history_json(text: &str) -> (r: Result<Self, Error>)
        ensures
            match history_of_text(text@) {
                Some(history) => r matches Ok(conversation) && conversation.history.deep_view()
                    == history && !conversation.always_send_functions
                    && conversation.function_validation == FunctionValidationStrategy::Loose
                    && conversation.functions.functions() == Seq::<GptFunction<C>>::empty(),
                None => r matches Err(Error::SerdeJsonError(detail)) && detail@
                    == "The document holds no history"@,
            },
    {
        let parsed = Json::parse(text);
        let history = match &parsed {
            Some(document) => history_from_json(document),
            None => None,
        };
        match history {
            Some(history) => Ok(Conversation::new_with_history(history)),
            None => Err(Error::SerdeJsonError("The document holds no history".to_owned())),
        }
    }

    /// Registers a function that the model may call from now on. A name that is
    /// already registered and a function without a description are refused, and
    /// the conversation stays as it was.
    pub fn add_function(&mut self, function: GptFunction<C>) -> (r: Result<(), Error>)
        ensures
            has_function(old(self).functions.functions(), function.descriptor.name@) ==> r
                == Err::<(), Error>(Error::DuplicateFunction(function.descriptor.name)),
            !has_function(old(self).functions.functions(), function.descriptor.name@)
                && function.descriptor.description@.len() == 0 ==> r == Err::<(), Error>(
                Error::MissingDescription(function.descriptor.name),
            ),
            !has_function(old(self).functions.functions(), function.descriptor.name@)
                && function.descriptor.description@.len() > 0 ==> r is Ok,
            r is Ok ==> final(self).functions.functions() == old(self).functions.functions().push(function),
            r is Err ==> final(self).functions.functions() == old(self).functions.functions(),
            old(self).functions.well_formed() ==> final(self).functions.well_formed(),
            final(self).history == old(self).history,
            final(self).always_send_functions == old(self).always_send_functions,
            final(self).function_validation == old(self).function_validation,
    {
        self.functions.register(function)
    }
}

/// The history that the JSON document `text` holds.
pub open spec fn history_of_text(text: Seq<char>) -> Option<Seq<ChatMessageView>> {
    match json_parse(text) {
        Some(document) => history_of_json(document),
        None => None,
    }
}

/// A rollback on a conversation that holds nothing but its directing message
/// removes nothing and hands nothing back; and whatever the history, the directing
/// message stays where it is.
pub proof fn law_rollback_keeps_seed(history: Seq<ChatMessageView>)
    requires
        has_seed(history),
    ensures
        has_seed(rolled_back(history)),
        rolled_back(history)[0] == history[0],
        history.len() == 1 ==> rolled_back(history) == history && rolled_back_reply(history) is None,
{
}

} // verus!
