//! One send operation, from the caller's message to the model's final answer:
//! the decisions between the requests and the function runs, which the caller
//! performs.

use crate::converse::{rolled_back, rolled_back_reply, Conversation};
use crate::err::{error_text, Error};
use crate::functions::{
    call_error_text, FunctionCall, FunctionCallError, FunctionValidationStrategy,
};
use crate::json::{from_value, json_print, Json, JsonView};
use crate::types::{ChatMessage, ChatMessageView, CompletionResponse, Role, ServerResponse};
use vstd::prelude::*;

verus! {

/// Where a send operation stands.
#[derive(Debug, Clone, Copy, PartialEq, Eq, Structural)]
pub enum DispatchState {
    /// Nothing has been sent yet.
    Idle,
    /// A request is under way; the service's answer is awaited.
    AwaitingReply,
    /// The model asked for a function; the outcome of its run is awaited.
    AwaitingFunctionResult,
    /// The operation is over: an answer was handed to the caller, or an error of
    /// the transport or of the service was.
    Done,
    /// The operation is over without an answer: a function call failed and was
    /// not corrected.
    ValidationFailed,
}

/// What the caller of a step has to do next.
#[derive(Debug, PartialEq, Eq)]
pub enum DispatchAction {
    /// Send the whole history to the service, with the registered functions where
    /// `with_functions` says so, and report the answer with [`Dispatcher::reply`].
    Request {
        /// Whether the request carries the registered functions.
        with_functions: bool,
    },
    /// Run the function that the model asked for and report the outcome with
    /// [`Dispatcher::function_returned`] or [`Dispatcher::function_result`].
    Invoke(FunctionCall),
    /// Hand the completion to the caller: the operation is over.
    Complete(CompletionResponse),
    /// The operation is over and there is no answer to hand out.
    NoReply,
    /// Hand the error to the caller: the operation is over.
    Abort(Error),
    /// The step does not fit the state of the operation; nothing has changed.
    Rejected,
}

/// One send operation on a conversation.
///
/// The dispatcher decides and records; the caller does the work in between. A
/// step that does not fit the state is answered with [`DispatchAction::Rejected`]
/// and changes nothing.
#[derive(Debug)]
pub struct Dispatcher {
    /// Where the operation stands.
    pub state: DispatchState,
    /// Whether the requests of this operation carry the registered functions.
    pub with_functions: bool,
}

/// A send operation together with the history that it works on.
pub struct Turn {
    pub state: DispatchState,
    pub with_functions: bool,
    pub history: Seq<ChatMessageView>,
}

/// A message of plain text.
pub open spec fn plain(role: Role, text: Seq<char>) -> ChatMessageView {
    ChatMessageView { role, content: Some(text), function_call: None }
}

/// The turn after the caller's message `text` was taken up: the message stands at
/// the end of the history and the answer is awaited. Functions are sent where the
/// caller asks for it or the conversation always sends them.
pub open spec fn after_send(turn: Turn, always: bool, role: Role, text: Seq<char>, with_functions: bool) -> Turn {
    if turn.state == DispatchState::Idle {
        Turn {
            state: DispatchState::AwaitingReply,
            with_functions: with_functions || always,
            history: turn.history.push(plain(role, text)),
        }
    } else {
        turn
    }
}

/// The turn after the service answered with `message`: the message stands at the
/// end of the history, and the turn is over unless the message asks for a function.
pub open spec fn after_reply(turn: Turn, message: ChatMessageView) -> Turn {
    if turn.state == DispatchState::AwaitingReply {
        Turn {
            state: if message.function_call is Some {
                DispatchState::AwaitingFunctionResult
            } else {
                DispatchState::Done
            },
            with_functions: turn.with_functions,
            history: turn.history.push(message),
        }
    } else {
        turn
    }
}

/// The turn after a request failed, or was answered with no message at all: it is
/// over, and the history is as it was.
pub open spec fn after_failure(turn: Turn) -> Turn {
    if turn.state == DispatchState::AwaitingReply {
        Turn { state: DispatchState::Done, with_functions: turn.with_functions, history: turn.history }
    } else {
        turn
    }
}

/// The turn after the function returned `text`: the result stands at the end of
/// the history as a message of role `Function`, and the next answer is awaited.
pub open spec fn after_function_success(turn: Turn, text: Seq<char>) -> Turn {
    if turn.state == DispatchState::AwaitingFunctionResult {
        Turn {
            state: DispatchState::AwaitingReply,
            with_functions: turn.with_functions,
            history: turn.history.push(plain(Role::Function, text)),
        }
    } else {
        turn
    }
}

/// The turn after the function call failed with the account `text`. Under
/// `Strict`, `text` stands at the end of the history as a correcting message of
/// role `System` and the next answer is awaited; under `Loose` the turn is over
/// and the history is as it was.
pub open spec fn after_function_failure(
    turn: Turn,
    strategy: FunctionValidationStrategy,
    text: Seq<char>,
) -> Turn {
    if turn.state == DispatchState::AwaitingFunctionResult {
        match strategy {
            FunctionValidationStrategy::Strict => Turn {
                state: DispatchState::AwaitingReply,
                with_functions: turn.with_functions,
                history: turn.history.push(plain(Role::System, text)),
            },
            FunctionValidationStrategy::Loose => Turn {
                state: DispatchState::ValidationFailed,
                with_functions: turn.with_functions,
                history: turn.history,
            },
        }
    } else {
        turn
    }
}

/// The turn after the function's result could not be written as JSON: it is over
/// without an answer, and the history is as it was.
pub open spec fn after_unprintable_result(turn: Turn) -> Turn {
    if turn.state == DispatchState::AwaitingFunctionResult {
        Turn {
            state: DispatchState::ValidationFailed,
            with_functions: turn.with_functions,
            history: turn.history,
        }
    } else {
        turn
    }
}

/// The account of a failed call that the model is given for an error that the run
/// of a function returned: the function's own failure with the text of the error,
/// whatever kind of error it is.
pub open spec fn failure_text(e: Error) -> Seq<char> {
    "Exception encountered when calling function: "@ + error_text(e)
}

impl Dispatcher {
    /// The operation together with the history of `conversation`.
    pub open spec fn turn<C>(self, conversation: Conversation<C>) -> Turn {
        Turn {
            state: self.state,
            with_functions: self.with_functions,
            history: conversation.history.deep_view(),
        }
    }

    /// A send operation that has not begun.
    pub fn new() -> (r: Self)
        ensures
            r.state == DispatchState::Idle,
            !r.with_functions,
    {
        Dispatcher { state: DispatchState::Idle, with_functions: false }
    }

    /// Whether the operation is over.
    pub fn is_finished(&self) -> (r: bool)
        ensures
            r == (self.state == DispatchState::Done || self.state
                == DispatchState::ValidationFailed),
    {
        match self.state {
            DispatchState::Done => true,
            DispatchState::ValidationFailed => true,
            _ => false,
        }
    }

    /// Takes up the caller's message: puts it at the end of the history and asks
    /// for a request.
    pub fn send<C>(
        &mut self,
        conversation: &mut Conversation<C>,
        role: Role,
        message: String,
        with_functions: bool,
    ) -> (r: DispatchAction)
        ensures
            final(self).turn(*final(conversation)) == after_send(
                old(self).turn(*old(conversation)),
                old(conversation).always_send_functions,
                role,
                message@,
                with_functions,
            ),
            old(self).state == DispatchState::Idle ==> r == (DispatchAction::Request {
                with_functions: with_functions || old(conversation).always_send_functions,
            }) && final(conversation).history@ == old(conversation).history@.push(
                ChatMessage { role, content: Some(message), function_call: None },
            ),
            old(self).state != DispatchState::Idle ==> r == DispatchAction::Rejected
                && final(conversation).history == old(conversation).history,
            final(conversation).always_send_functions == old(conversation).always_send_functions,
            final(conversation).function_validation == old(conversation).function_validation,
            final(conversation).functions == old(conversation).functions,
    {
        match self.state {
            DispatchState::Idle => {
                conversation.append(ChatMessage::new(role, message));
                self.state = DispatchState::AwaitingReply;
                self.with_functions = with_functions || conversation.always_send_functions;
                DispatchAction::Request { with_functions: self.with_functions }
            },
            _ => DispatchAction::Rejected,
        }
    }

    /// Takes up what came back from a request.
    ///
    /// An error of the transport, a failure that the service reports, and a
    /// completion without any choice end the operation: the error is handed to the
    /// caller and the history stays as it is. Otherwise the message of the first
    /// choice goes to the end of the history. Where it asks for a function, the
    /// caller is asked to run it; where not, the operation is over and the
    /// completion is the answer.
    pub fn reply<C>(
        &mut self,
        conversation: &mut Conversation<C>,
        response: Result<ServerResponse, Error>,
    ) -> (r: DispatchAction)
        ensures
            old(self).state != DispatchState::AwaitingReply ==> r == DispatchAction::Rejected
                && *final(self) == *old(self) && final(conversation).history == old(conversation).history,
            old(self).state == DispatchState::AwaitingReply ==> match response {
                Err(e) => r == DispatchAction::Abort(e) && final(self).turn(*final(conversation))
                    == after_failure(old(self).turn(*old(conversation))),
                Ok(ServerResponse::Error { error }) => r == DispatchAction::Abort(
                    Error::BackendError { message: error.message, error_type: error.error_type },
                ) && final(self).turn(*final(conversation)) == after_failure(
                    old(self).turn(*old(conversation)),
                ),
                Ok(ServerResponse::Completion(completion)) => if completion.message_choices@.len()
                    == 0 {
                    &&& r matches DispatchAction::Abort(Error::ParsingError(text))
                    &&& text@ == "The completion holds no message choice"@
                    &&& final(self).turn(*final(conversation)) == after_failure(
                        old(self).turn(*old(conversation)),
                    )
                } else {
                    let message = completion.message_choices@[0].message;
                    &&& final(self).turn(*final(conversation)) == after_reply(
                        old(self).turn(*old(conversation)),
                        message@,
                    )
                    &&& final(conversation).history@ == old(conversation).history@.push(message)
                    &&& match message.function_call {
                        Some(call) => r == DispatchAction::Invoke(call),
                        None => r == DispatchAction::Complete(completion),
                    }
                },
            },
            final(conversation).always_send_functions == old(conversation).always_send_functions,
            final(conversation).function_validation == old(conversation).function_validation,
            final(conversation).functions == old(conversation).functions,
    {
        match self.state {
            DispatchState::AwaitingReply => {},
            _ => {
                return DispatchAction::Rejected;
            },
        }
        let completion = match response {
            Err(e) => {
                self.state = DispatchState::Done;
                return DispatchAction::Abort(e);
            },
            Ok(answer) => match answer.into_result() {
                Err(e) => {
                    self.state = DispatchState::Done;
                    return DispatchAction::Abort(e);
                },
                Ok(completion) => completion,
            },
        };
        if completion.message_choices.len() == 0 {
            self.state = DispatchState::Done;
            return DispatchAction::Abort(
                Error::ParsingError("The completion holds no message choice".to_owned()),
            );
        }
        let message = completion.message().clone();
        let call = match &message.function_call {
            Some(call) => Some(call.clone()),
            None => None,
        };
        conversation.append(message);
        match call {
            Some(call) => {
                self.state = DispatchState::AwaitingFunctionResult;
                DispatchAction::Invoke(call)
            },
            None => {
                self.state = DispatchState::Done;
                DispatchAction::Complete(completion)
            },
        }
    }

    /// Takes up the outcome of the function call, given as the text of the result
    /// or as the failure of the call.
    ///
    /// A result goes to the end of the history as a message of role `Function`,
    /// and the next request is asked for. A failure is answered as the
    /// conversation's validation strategy says: under `Strict` its account goes
    /// to the end of the history as a message of role `System` and the next
    /// request is asked for; under `Loose` the operation is over, the history
    /// stays as it is, and there is no answer.
    pub fn function_result<C>(
        &mut self,
        conversation: &mut Conversation<C>,
        result: Result<String, FunctionCallError>,
    ) -> (r: DispatchAction)
        ensures
            old(self).state != DispatchState::AwaitingFunctionResult ==> r
                == DispatchAction::Rejected,
            final(self).turn(*final(conversation)) == match result {
                Ok(text) => after_function_success(old(self).turn(*old(conversation)), text@),
                Err(e) => after_function_failure(
                    old(self).turn(*old(conversation)),
                    old(conversation).function_validation,
                    call_error_text(e),
                ),
            },
            old(self).state == DispatchState::AwaitingFunctionResult ==> r == function_action(
                final(self).turn(*final(conversation)),
            ),
            final(conversation).always_send_functions == old(conversation).always_send_functions,
            final(conversation).function_validation == old(conversation).function_validation,
            final(conversation).functions == old(conversation).functions,
    {
        match self.state {
            DispatchState::AwaitingFunctionResult => {},
            _ => {
                return DispatchAction::Rejected;
            },
        }
        match result {
            Ok(text) => {
                conversation.append(ChatMessage::new(Role::Function, text));
                self.state = DispatchState::AwaitingReply;
                DispatchAction::Request { with_functions: self.with_functions }
            },
            Err(e) => match conversation.function_validation {
                FunctionValidationStrategy::Strict => {
                    conversation.append(ChatMessage::new(Role::System, e.message()));
                    self.state = DispatchState::AwaitingReply;
                    DispatchAction::Request { with_functions: self.with_functions }
                },
                FunctionValidationStrategy::Loose => {
                    self.state = DispatchState::ValidationFailed;
                    DispatchAction::NoReply
                },
            },
        }
    }

    /// Takes up the JSON value that the function returned.
    ///
    /// The value is written as a compact JSON document, which goes to the end of
    /// the history as a message of role `Function`, and the next request is asked
    /// for. A value that cannot be written ends the operation without an answer,
    /// and the history stays as it is.
    pub fn function_value<C>(&mut self, conversation: &mut Conversation<C>, value: &Json) -> (r:
        DispatchAction)
        ensures
            old(self).state != DispatchState::AwaitingFunctionResult ==> r
                == DispatchAction::Rejected && final(self).turn(*final(conversation)) == old(self).turn(*old(conversation)),
            old(self).state == DispatchState::AwaitingFunctionResult ==> final(self).turn(
                *final(conversation),
            ) == after_printed(old(self).turn(*old(conversation)), json_print(value@)) && r
                == function_action(final(self).turn(*final(conversation))),
            final(conversation).always_send_functions == old(conversation).always_send_functions,
            final(conversation).function_validation == old(conversation).function_validation,
            final(conversation).functions == old(conversation).functions,
    {
        match self.state {
            DispatchState::AwaitingFunctionResult => {},
            _ => {
                return DispatchAction::Rejected;
            },
        }
        match value.print() {
            Some(text) => self.function_result(conversation, Ok(text)),
            None => {
                self.state = DispatchState::ValidationFailed;
                DispatchAction::NoReply
            },
        }
    }

    /// Takes up the outcome of the run of the function as the function returned
    /// it: a JSON value, or an error.
    ///
    /// A value is taken up as in [`Dispatcher::function_value`]. An error is the
    /// function's own failure, whatever kind of error it is, and is answered as in
    /// [`Dispatcher::function_result`] with its text. Arguments that could not be
    /// read never come here: the function did not run, and the caller reports
    /// [`FunctionCallError::InvalidArguments`] with [`Dispatcher::function_result`].
    pub fn function_returned<C>(
        &mut self,
        conversation: &mut Conversation<C>,
        outcome: Result<serde_json::Value, Error>,
    ) -> (r: DispatchAction)
        ensures
            old(self).state != DispatchState::AwaitingFunctionResult ==> r
                == DispatchAction::Rejected && final(self).turn(*final(conversation)) == old(self).turn(*old(conversation)),
            old(self).state == DispatchState::AwaitingFunctionResult ==> match outcome {
                Ok(_) => exists|value: JsonView|
                    final(self).turn(*final(conversation)) == #[trigger] after_printed(
                        old(self).turn(*old(conversation)),
                        json_print(value),
                    ),
                Err(e) => final(self).turn(*final(conversation)) == after_function_failure(
                    old(self).turn(*old(conversation)),
                    old(conversation).function_validation,
                    failure_text(e),
                ),
            },
            old(self).state == DispatchState::AwaitingFunctionResult ==> r == function_action(
                final(self).turn(*final(conversation)),
            ),
            final(conversation).always_send_functions == old(conversation).always_send_functions,
            final(conversation).function_validation == old(conversation).function_validation,
            final(conversation).functions == old(conversation).functions,
    {
        match outcome {
            Ok(value) => {
                let tree: Json = from_value(value);
                let r = self.function_value(conversation, &tree);
                proof {
                    if old(self).state == DispatchState::AwaitingFunctionResult {
                        assert(final(self).turn(*final(conversation)) == after_printed(
                            old(self).turn(*old(conversation)),
                            json_print(tree@),
                        ));
                    }
                }
                r
            },
            Err(e) => {
                let failure = FunctionCallError::from_error(&e);
                self.function_result(conversation, Err(failure))
            },
        }
    }
}

/// The turn after the function's result was written as JSON: as after a success
/// with the document as its text, or, where the result has no document, over
/// without an answer.
pub open spec fn after_printed(turn: Turn, document: Option<Seq<char>>) -> Turn {
    match document {
        Some(text) => after_function_success(turn, text),
        None => after_unprintable_result(turn),
    }
}

/// What the caller is asked to do once the outcome of a function call was taken
/// up: to send the next request where the turn awaits an answer, and nothing more
/// where the turn is over.
pub open spec fn function_action(after: Turn) -> DispatchAction {
    match after.state {
        DispatchState::AwaitingReply => DispatchAction::Request { with_functions: after.with_functions },
        _ => DispatchAction::NoReply,
    }
}

/// A rollback right after a send that was answered with a plain message takes
/// away exactly the two messages that the send added, the message sent and the
/// reply, and hands back the reply; on a conversation that holds nothing but its
/// directing message it takes away nothing and hands back nothing.
pub proof fn law_rollback_undoes_send(
    history: Seq<ChatMessageView>,
    always: bool,
    role: Role,
    text: Seq<char>,
    with_functions: bool,
    reply: ChatMessageView,
)
    requires
        history.len() >= 1,
        reply.function_call is None,
    ensures
        ({
            let start = Turn { state: DispatchState::Idle, with_functions: false, history };
            let end = after_reply(after_send(start, always, role, text, with_functions), reply);
            &&& end.state == DispatchState::Done
            &&& end.history == history.push(plain(role, text)).push(reply)
            &&& rolled_back(end.history) == history
            &&& rolled_back_reply(end.history) == Some(reply)
        }),
        history.len() == 1 ==> rolled_back(history) == history && rolled_back_reply(history) is None,
{
    let sent = history.push(plain(role, text)).push(reply);
    assert(sent.take(sent.len() - 2) =~= history);
}

/// Under `Strict`, a function call that fails is corrected: after the model's
/// message with the call, the failed run and the next plain answer, the history
/// ends with the message that holds the call, the correcting message of role
/// `System` and the answer, in this order, and the turn is over with the answer.
pub proof fn law_strict_corrects_failed_call(
    history: Seq<ChatMessageView>,
    with_functions: bool,
    call: ChatMessageView,
    failure: FunctionCallError,
    answer: ChatMessageView,
)
    requires
        call.function_call is Some,
        answer.function_call is None,
    ensures
        ({
            let start = Turn { state: DispatchState::AwaitingReply, with_functions, history };
            let asked = after_reply(start, call);
            let corrected = after_function_failure(
                asked,
                FunctionValidationStrategy::Strict,
                call_error_text(failure),
            );
            let end = after_reply(corrected, answer);
            &&& asked.state == DispatchState::AwaitingFunctionResult
            &&& function_action(corrected) == DispatchAction::Request { with_functions }
            &&& end.state == DispatchState::Done
            &&& end.history == history.push(call).push(
                plain(Role::System, call_error_text(failure)),
            ).push(answer)
        }),
{
}

/// Under `Loose`, a function call that fails ends the turn: the history ends with
/// the model's message that holds the call, and the caller gets no answer.
pub proof fn law_loose_drops_failed_call(
    history: Seq<ChatMessageView>,
    with_functions: bool,
    call: ChatMessageView,
    failure: FunctionCallError,
)
    requires
        call.function_call is Some,
    ensures
        ({
            let start = Turn { state: DispatchState::AwaitingReply, with_functions, history };
            let asked = after_reply(start, call);
            let end = after_function_failure(
                asked,
                FunctionValidationStrategy::Loose,
                call_error_text(failure),
            );
            &&& end.state == DispatchState::ValidationFailed
            &&& end.history == history.push(call)
            &&& end.history.last() == call
            &&& function_action(end) == DispatchAction::NoReply
        }),
{
}

/// No step of a send operation touches the directing message: where the history
/// opens with one, it opens with the same one after every step.
pub proof fn law_steps_keep_seed(
    turn: Turn,
    always: bool,
    role: Role,
    text: Seq<char>,
    with_functions: bool,
    message: ChatMessageView,
    strategy: FunctionValidationStrategy,
)
    requires
        turn.history.len() >= 1,
    ensures
        after_send(turn, always, role, text, with_functions).history[0] == turn.history[0],
        after_reply(turn, message).history[0] == turn.history[0],
        after_failure(turn).history[0] == turn.history[0],
        after_function_success(turn, text).history[0] == turn.history[0],
        after_function_failure(turn, strategy, text).history[0] == turn.history[0],
        after_unprintable_result(turn).history[0] == turn.history[0],
{
}

/// Whether every message of a history meets the data-model rule of messages.
pub open spec fn well_formed_history(history: Seq<ChatMessageView>) -> bool {
    forall|i: int| 0 <= i < history.len() ==> (#[trigger] history[i]).well_formed()
}

/// The steps of a send operation keep a history well formed, as long as what
/// comes from outside is well formed: the caller's message, the service's answer,
/// and a function result that is not empty.
pub proof fn law_steps_keep_well_formed(
    turn: Turn,
    always: bool,
    role: Role,
    text: Seq<char>,
    with_functions: bool,
    message: ChatMessageView,
    strategy: FunctionValidationStrategy,
)
    requires
        well_formed_history(turn.history),
    ensures
        role != Role::Function || text.len() > 0 ==> well_formed_history(
            after_send(turn, always, role, text, with_functions).history,
        ),
        message.well_formed() ==> well_formed_history(after_reply(turn, message).history),
        text.len() > 0 ==> well_formed_history(after_function_success(turn, text).history),
        well_formed_history(after_function_failure(turn, strategy, text).history),
        well_formed_history(after_failure(turn).history),
        well_formed_history(after_unprintable_result(turn).history),
{
}

/// The failure of a function's run is never taken for arguments that could not be
/// read, nor for a function that does not exist: whatever error the run returned,
/// a JSON error included, the model is given another account than for those two.
pub proof fn law_run_failures_are_told_apart(e: Error, failure: FunctionCallError)
    requires
        failure matches FunctionCallError::InnerError(text) && text@ == error_text(e),
    ensures
        call_error_text(failure) == failure_text(e),
        failure_text(e) != call_error_text(FunctionCallError::InvalidArguments),
        failure_text(e) != call_error_text(FunctionCallError::InvalidFunction),
{
    reveal_strlit("Exception encountered when calling function: ");
    reveal_strlit("Invalid function call: invalid arguments given to this function");
    reveal_strlit("Invalid function call: this function does not exist");
    assert(failure_text(e)[0] == 'E');
    assert(call_error_text(FunctionCallError::InvalidArguments)[0] == 'I');
    assert(call_error_text(FunctionCallError::InvalidFunction)[0] == 'I');
}

} // verus!
