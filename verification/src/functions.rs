//! Functions that the model may ask the caller to run.

use crate::docs::{description_of, FunctionDocs};
use crate::err::{error_text, Error};
use crate::json::{Json, JsonView};
use crate::text::str_eq;
use vstd::prelude::*;
use vstd::string::StringExecFns;

verus! {

/// Determines how the model will be calling the functions.
#[derive(Debug, Clone, Copy, PartialEq, Eq, Structural)]
pub enum FunctionCallingMode {
    /// The model decides by itself whether it calls a function.
    Auto,
    /// The model calls no function.
    Never,
}

/// Determines how a failed function call is answered.
#[derive(Debug, Clone, Copy, PartialEq, Eq, Structural)]
pub enum FunctionValidationStrategy {
    /// A call of an unknown function, or with arguments that cannot be read, is
    /// answered with a `System` message that corrects the model.
    Strict,
    /// Such a call is ignored.
    Loose,
}

impl Default for FunctionValidationStrategy {
    fn default() -> (r: Self)
        ensures
            r == FunctionValidationStrategy::Loose,
    {
        FunctionValidationStrategy::Loose
    }
}

/// A function call attempted by the model, as reported and not yet validated.
#[derive(Debug, PartialEq, Eq)]
pub struct FunctionCall {
    /// Name of the function to call.
    pub name: String,
    /// Arguments of the call, a JSON object as text.
    pub arguments: String,
}

/// What a [`FunctionCall`] holds.
pub struct FunctionCallView {
    pub name: Seq<char>,
    pub arguments: Seq<char>,
}

impl DeepView for FunctionCall {
    type V = FunctionCallView;

    open spec fn deep_view(&self) -> FunctionCallView {
        FunctionCallView { name: self.name@, arguments: self.arguments@ }
    }
}

impl View for FunctionCall {
    type V = FunctionCallView;

    open spec fn view(&self) -> FunctionCallView {
        self.deep_view()
    }
}

impl Clone for FunctionCall {
    fn clone(&self) -> (r: Self)
        ensures
            r == *self,
    {
        FunctionCall { name: self.name.clone(), arguments: self.arguments.clone() }
    }
}

/// Why a function call of the model could not be served.
#[derive(Debug, PartialEq, Eq)]
pub enum FunctionCallError {
    /// The arguments could not be read as the arguments of the function.
    InvalidArguments,
    /// No function of that name is registered.
    InvalidFunction,
    /// The function itself failed; the text is its own account of it.
    InnerError(String),
}

/// The sentence with which the model is told of a failed call.
pub open spec fn call_error_text(e: FunctionCallError) -> Seq<char> {
    match e {
        FunctionCallError::InvalidArguments =>
            "Invalid function call: invalid arguments given to this function"@,
        FunctionCallError::InvalidFunction => "Invalid function call: this function does not exist"@,
        FunctionCallError::InnerError(text) => "Exception encountered when calling function: "@
            + text@,
    }
}

impl FunctionCallError {
    /// Renders the failure for the model.
    pub fn message(&self) -> (r: String)
        ensures
            r@ == call_error_text(*self),
    {
        match self {
            FunctionCallError::InvalidArguments =>
                "Invalid function call: invalid arguments given to this function".to_owned(),
            FunctionCallError::InvalidFunction =>
                "Invalid function call: this function does not exist".to_owned(),
            FunctionCallError::InnerError(text) =>
                "Exception encountered when calling function: ".to_owned().concat(text.as_str()),
        }
    }

    /// The failure of a call whose function ran and returned the error `e`: the
    /// function's own failure, whatever kind of error `e` is, carried as the text
    /// of `e`. Arguments that could not be read are no error of the run: they are
    /// [`FunctionCallError::InvalidArguments`].
    pub fn from_error(e: &Error) -> (r: FunctionCallError)
        ensures
            r matches FunctionCallError::InnerError(text) && text@ == error_text(*e),
    {
        FunctionCallError::InnerError(e.message())
    }
}

/// What the model is told of a function: its name, what it does, and the JSON
/// Schema of its arguments.
#[derive(Debug, Clone, PartialEq, Eq)]
pub struct FunctionDescriptor {
    /// The name by which the function is called, such as `my_function`.
    pub name: String,
    /// What the function does, so that the model knows when to call it.
    pub description: String,
    /// JSON Schema of the object that holds the arguments.
    pub parameters: Json,
}

/// What a [`FunctionDescriptor`] holds.
pub struct FunctionDescriptorView {
    pub name: Seq<char>,
    pub description: Seq<char>,
    pub parameters: JsonView,
}

impl DeepView for FunctionDescriptor {
    type V = FunctionDescriptorView;

    open spec fn deep_view(&self) -> FunctionDescriptorView {
        FunctionDescriptorView {
            name: self.name@,
            description: self.description@,
            parameters: self.parameters@,
        }
    }
}

impl View for FunctionDescriptor {
    type V = FunctionDescriptorView;

    open spec fn view(&self) -> FunctionDescriptorView {
        self.deep_view()
    }
}

/// The object that the service is sent for a function:
/// `{ "name": .., "description": .., "parameters": .. }`.
pub open spec fn json_of_descriptor(d: FunctionDescriptorView) -> JsonView {
    JsonView::Object(
        seq![
            ("name"@, JsonView::Text(d.name)),
            ("description"@, JsonView::Text(d.description)),
            ("parameters"@, d.parameters),
        ],
    )
}

impl FunctionDescriptor {
    /// The descriptor of the function `name` with the JSON Schema `parameters` of
    /// its arguments, described by the texts `docs` of its doc comments. A
    /// function whose documentation does not say what it does is refused with
    /// [`Error::MissingDescription`].
    pub fn from_docs(name: &str, docs: &Vec<String>, parameters: Json) -> (r: Result<
        FunctionDescriptor,
        Error,
    >)
        ensures
            description_of(docs.deep_view()).len() > 0 ==> (r matches Ok(descriptor)
                && descriptor.name@ == name@ && descriptor.description@ == description_of(
                docs.deep_view(),
            ) && descriptor.parameters == parameters),
            description_of(docs.deep_view()).len() == 0 ==> (r matches Err(
                Error::MissingDescription(function),
            ) && function@ == name@),
    {
        match FunctionDocs::extract_docs(docs) {
            Some(found) => Ok(
                FunctionDescriptor {
                    name: name.to_owned(),
                    description: found.description,
                    parameters,
                },
            ),
            None => Err(Error::MissingDescription(name.to_owned())),
        }
    }

    /// The object that the service is sent for this function.
    pub fn to_json(&self) -> (r: Json)
        ensures
            r@ == json_of_descriptor(self@),
    {
        let mut entries: Vec<(String, Json)> = Vec::new();
        entries.push(("name".to_owned(), Json::text(self.name.as_str())));
        entries.push(("description".to_owned(), Json::text(self.description.as_str())));
        entries.push(("parameters".to_owned(), self.parameters.clone()));
        let r = Json::Object(entries);
        proof {
            assert(r@->Object_0 =~= json_of_descriptor(self@)->Object_0);
        }
        r
    }
}

/// A function that the model may call: what the model is told of it, and what
/// runs it.
#[derive(Debug)]
pub struct GptFunction<C> {
    /// What the model is told of the function.
    pub descriptor: FunctionDescriptor,
    /// What runs the function. This library never calls it: it hands it back to
    /// the caller when the model asks for the function.
    pub callable: C,
}

/// The functions that the model may call, by name, in the order in which they were
/// registered. No name occurs twice, and every function has a description.
#[derive(Debug)]
pub struct FunctionRegistry<C> {
    functions: Vec<GptFunction<C>>,
}

/// Whether one of `functions` goes by `name`.
pub open spec fn has_function<C>(functions: Seq<GptFunction<C>>, name: Seq<char>) -> bool {
    exists|i: int| 0 <= i < functions.len() && (#[trigger] functions[i]).descriptor.name@ == name
}

/// Whether `i` is the place of the first of `functions` that goes by `name`.
pub open spec fn is_first_named<C>(functions: Seq<GptFunction<C>>, name: Seq<char>, i: int) -> bool {
    &&& 0 <= i < functions.len()
    &&& functions[i].descriptor.name@ == name
    &&& forall|k: int| 0 <= k < i ==> (#[trigger] functions[k]).descriptor.name@ != name
}

/// Whether no two of `functions` share a name and none lacks a description.
pub open spec fn registrable<C>(functions: Seq<GptFunction<C>>) -> bool {
    &&& forall|i: int, j: int|
        0 <= i < j < functions.len() ==> (#[trigger] functions[i]).descriptor.name@ != (
        #[trigger] functions[j]).descriptor.name@
    &&& forall|i: int|
        0 <= i < functions.len() ==> (#[trigger] functions[i]).descriptor.description@.len() > 0
}

impl<C> FunctionRegistry<C> {
    /// The registered functions, in the order of their registration.
    pub closed spec fn functions(self) -> Seq<GptFunction<C>> {
        self.functions@
    }

    /// The rule of a registry: no name occurs twice, and every function has a
    /// description. A new registry meets it, and registering keeps it.
    pub open spec fn well_formed(self) -> bool {
        registrable(self.functions())
    }

    /// A registry without functions.
    pub fn new() -> (r: Self)
        ensures
            r.functions() == Seq::<GptFunction<C>>::empty(),
            r.well_formed(),
    {
        FunctionRegistry { functions: Vec::new() }
    }

    /// The number of registered functions.
    pub fn len(&self) -> (r: usize)
        ensures
            r == self.functions().len(),
    {
        self.functions.len()
    }

    /// Registers a function. A name that is already registered is refused with
    /// [`Error::DuplicateFunction`], a function without a description with
    /// [`Error::MissingDescription`]; both errors carry the name.
    pub fn register(&mut self, function: GptFunction<C>) -> (r: Result<(), Error>)
        ensures
            has_function(old(self).functions(), function.descriptor.name@) ==> r == Err::<(), Error>(
                Error::DuplicateFunction(function.descriptor.name),
            ),
            !has_function(old(self).functions(), function.descriptor.name@)
                && function.descriptor.description@.len() == 0 ==> r == Err::<(), Error>(
                Error::MissingDescription(function.descriptor.name),
            ),
            !has_function(old(self).functions(), function.descriptor.name@)
                && function.descriptor.description@.len() > 0 ==> r is Ok,
            r is Ok ==> final(self).functions() == old(self).functions().push(function),
            r is Err ==> final(self).functions() == old(self).functions(),
            old(self).well_formed() ==> final(self).well_formed(),
    {
        if self.position(function.descriptor.name.as_str()).is_some() {
            return Err(Error::DuplicateFunction(function.descriptor.name.clone()));
        }
        if function.descriptor.description.as_str().is_empty() {
            return Err(Error::MissingDescription(function.descriptor.name.clone()));
        }
        self.functions.push(function);
        Ok(())
    }

    /// Where the function called `name` stands in the order of registration.
    pub fn position(&self, name: &str) -> (r: Option<usize>)
        ensures
            match r {
                Some(i) => is_first_named(self.functions(), name@, i as int),
                None => !has_function(self.functions(), name@),
            },
    {
        let mut i: usize = 0;
        while i < self.functions.len()
            invariant
                i <= self.functions@.len(),
                forall|k: int| 0 <= k < i ==> (#[trigger] self.functions@[k]).descriptor.name@ != name@,
            decreases self.functions@.len() - i,
        {
            if str_eq(self.functions[i].descriptor.name.as_str(), name) {
                return Some(i);
            }
            i = i + 1;
        }
        None
    }

    /// The function that the model asks for by `name`; a name that is not
    /// registered is refused with [`FunctionCallError::InvalidFunction`].
    pub fn lookup(&self, name: &str) -> (r: Result<&GptFunction<C>, FunctionCallError>)
        ensures
            match r {
                Ok(function) => exists|i: int|
                    #[trigger] is_first_named(self.functions(), name@, i) && self.functions()[i]
                        == *function,
                Err(e) => e == FunctionCallError::InvalidFunction && !has_function(
                    self.functions(),
                    name@,
                ),
            },
    {
        match self.position(name) {
            Some(i) => {
                assert(is_first_named(self.functions(), name@, i as int));
                Ok(&self.functions[i])
            },
            None => Err(FunctionCallError::InvalidFunction),
        }
    }

    /// The objects that the service is sent for the registered functions, in the
    /// order of their registration.
    pub fn describe_all(&self) -> (r: Vec<Json>)
        ensures
            r@.len() == self.functions().len(),
            forall|i: int|
                0 <= i < r@.len() ==> (#[trigger] r@[i])@ == json_of_descriptor(
                    self.functions()[i].descriptor@,
                ),
    {
        let mut out: Vec<Json> = Vec::new();
        let mut i: usize = 0;
        while i < self.functions.len()
            invariant
                i <= self.functions@.len(),
                out@.len() == i,
                forall|k: int|
                    0 <= k < i ==> (#[trigger] out@[k])@ == json_of_descriptor(
                        self.functions@[k].descriptor@,
                    ),
            decreases self.functions@.len() - i,
        {
            out.push(self.functions[i].descriptor.to_json());
            i = i + 1;
        }
        out
    }
}

/// A function that was registered is found under its name, at the end of the
/// order of registration, and the functions registered before it stay where they
/// were.
pub proof fn law_registered_is_found<C>(functions: Seq<GptFunction<C>>, function: GptFunction<C>)
    requires
        registrable(functions),
        !has_function(functions, function.descriptor.name@),
        function.descriptor.description@.len() > 0,
    ensures
        registrable(functions.push(function)),
        is_first_named(
            functions.push(function),
            function.descriptor.name@,
            functions.len() as int,
        ),
        forall|i: int, name: Seq<char>|
            is_first_named(functions, name, i) ==> is_first_named(functions.push(function), name, i),
{
    let after = functions.push(function);
    assert forall|k: int| 0 <= k < functions.len() implies (#[trigger] after[k]).descriptor.name@
        != function.descriptor.name@ by {
        assert(after[k] == functions[k]);
    }
    assert forall|i: int, j: int| 0 <= i < j < after.len() implies (#[trigger] after[i]).descriptor.name@
        != (#[trigger] after[j]).descriptor.name@ by {
        if j < functions.len() {
            assert(after[i] == functions[i] && after[j] == functions[j]);
        } else {
            assert(after[i] == functions[i]);
        }
    }
    assert forall|i: int| 0 <= i < after.len() implies (#[trigger] after[i]).descriptor.description@.len()
        > 0 by {
        if i < functions.len() {
            assert(after[i] == functions[i]);
        }
    }
    assert forall|i: int, name: Seq<char>| is_first_named(functions, name, i) implies is_first_named(
        after,
        name,
        i,
    ) by {
        assert(after[i] == functions[i]);
        assert forall|k: int| 0 <= k < i implies (#[trigger] after[k]).descriptor.name@ != name by {
            assert(after[k] == functions[k]);
        }
    }
}

} // verus!
