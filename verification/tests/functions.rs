use chatgpt::err::Error;
use chatgpt::functions::{
    FunctionCallError, FunctionDescriptor, FunctionRegistry, FunctionValidationStrategy,
    GptFunction,
};
use chatgpt::json::Json;

fn test_schema() -> Json {
    Json::parse(
        "{\"properties\":{\"age\":{\"description\":\"Some example age\",\"format\":\"uint16\",\
         \"minimum\":0.0,\"type\":\"integer\"},\"name\":{\"description\":\"Some example name\",\
         \"type\":\"string\"}},\"required\":[\"age\",\"name\"],\"title\":\"TestArguments\",\
         \"type\":\"object\"}",
    )
    .unwrap()
}

fn function(name: &str, description: &str) -> GptFunction<u8> {
    GptFunction {
        descriptor: FunctionDescriptor {
            name: name.to_string(),
            description: description.to_string(),
            parameters: Json::Object(vec![]),
        },
        callable: 0,
    }
}

#[test]
fn test_derive_function_argument() {
    let docs = vec![
        " This is some test function".to_string(),
        " * name - Some test parameter 1".to_string(),
        " * age - Some test parameter 2".to_string(),
    ];
    let descriptor =
        FunctionDescriptor::from_docs("my_test_function", &docs, test_schema()).unwrap();
    assert_eq!(descriptor.description, "This is some test function");
    assert_eq!(descriptor.name, "my_test_function");
}

#[test]
fn test_descriptor_serialization() {
    let test_descriptor = FunctionDescriptor {
        name: "test_descriptor".to_string(),
        description: "Used for testing descriptor serialization".to_string(),
        parameters: test_schema(),
    };
    let text = test_descriptor.to_json().print().unwrap();
    let value: serde_json::Value = serde_json::from_str(&text).unwrap();

    let mut age = serde_json::Map::new();
    age.insert("description".to_string(), serde_json::Value::from("Some example age"));
    age.insert("format".to_string(), serde_json::Value::from("uint16"));
    age.insert("minimum".to_string(), serde_json::Value::from(0.0));
    age.insert("type".to_string(), serde_json::Value::from("integer"));
    let mut name = serde_json::Map::new();
    name.insert("description".to_string(), serde_json::Value::from("Some example name"));
    name.insert("type".to_string(), serde_json::Value::from("string"));
    let mut properties = serde_json::Map::new();
    properties.insert("age".to_string(), serde_json::Value::Object(age));
    properties.insert("name".to_string(), serde_json::Value::Object(name));
    let mut parameters = serde_json::Map::new();
    parameters.insert("properties".to_string(), serde_json::Value::Object(properties));
    parameters.insert(
        "required".to_string(),
        serde_json::Value::Array(vec![
            serde_json::Value::from("age"),
            serde_json::Value::from("name"),
        ]),
    );
    parameters.insert("title".to_string(), serde_json::Value::from("TestArguments"));
    parameters.insert("type".to_string(), serde_json::Value::from("object"));
    let mut expected = serde_json::Map::new();
    expected.insert(
        "description".to_string(),
        serde_json::Value::from("Used for testing descriptor serialization"),
    );
    expected.insert("name".to_string(), serde_json::Value::from("test_descriptor"));
    expected.insert("parameters".to_string(), serde_json::Value::Object(parameters));
    assert_eq!(serde_json::Value::Object(expected), value);
}

#[test]
fn descriptor_without_description_is_refused() {
    let docs = vec![" * name - Some test parameter 1".to_string()];
    assert_eq!(
        FunctionDescriptor::from_docs("f", &docs, Json::Null),
        Err(Error::MissingDescription("f".to_string()))
    );
}

#[test]
fn descriptor_object_has_its_members_in_order() {
    let descriptor = FunctionDescriptor {
        name: "f".to_string(),
        description: "does \"f\"".to_string(),
        parameters: Json::Object(vec![]),
    };
    assert_eq!(
        descriptor.to_json(),
        Json::Object(vec![
            ("name".to_string(), Json::Text("f".to_string())),
            ("description".to_string(), Json::Text("does \"f\"".to_string())),
            ("parameters".to_string(), Json::Object(vec![])),
        ])
    );
}

#[test]
fn registry_refuses_a_second_function_of_the_same_name() {
    let mut registry: FunctionRegistry<u8> = FunctionRegistry::new();
    assert_eq!(registry.register(function("say_hello", "Says hello")), Ok(()));
    assert_eq!(
        registry.register(function("say_hello", "Says hello again")),
        Err(Error::DuplicateFunction("say_hello".to_string()))
    );
    assert_eq!(registry.len(), 1);
}

#[test]
fn registry_refuses_a_function_without_description() {
    let mut registry: FunctionRegistry<u8> = FunctionRegistry::new();
    assert_eq!(
        registry.register(function("say_hello", "")),
        Err(Error::MissingDescription("say_hello".to_string()))
    );
    assert_eq!(registry.len(), 0);
}

#[test]
fn registry_describes_in_registration_order() {
    let mut registry: FunctionRegistry<u8> = FunctionRegistry::new();
    registry.register(function("b", "second letter")).unwrap();
    registry.register(function("a", "first letter")).unwrap();
    let described = registry.describe_all();
    assert_eq!(described.len(), 2);
    assert_eq!(described[0].member("name"), Some(&Json::Text("b".to_string())));
    assert_eq!(described[1].member("name"), Some(&Json::Text("a".to_string())));
    assert_eq!(registry.position("a"), Some(1));
    assert_eq!(registry.position("c"), None);
}

#[test]
fn lookup_of_an_unknown_function_is_an_invalid_function() {
    let mut registry: FunctionRegistry<u8> = FunctionRegistry::new();
    registry.register(function("a", "first letter")).unwrap();
    assert_eq!(registry.lookup("b").err(), Some(FunctionCallError::InvalidFunction));
    assert_eq!(registry.lookup("a").unwrap().descriptor.name, "a");
}

#[test]
fn call_errors_render_their_sentences() {
    assert_eq!(
        FunctionCallError::InvalidArguments.message(),
        "Invalid function call: invalid arguments given to this function"
    );
    assert_eq!(
        FunctionCallError::InvalidFunction.message(),
        "Invalid function call: this function does not exist"
    );
    assert_eq!(
        FunctionCallError::InnerError("boom".to_string()).message(),
        "Exception encountered when calling function: boom"
    );
}

#[test]
fn every_error_of_a_run_is_the_function_s_own() {
    assert_eq!(
        FunctionCallError::from_error(&Error::SerdeJsonError("missing field".to_string())),
        FunctionCallError::InnerError("Failed to (de)serialize data: missing field".to_string())
    );
    assert_eq!(
        FunctionCallError::from_error(&Error::IOError("disk".to_string())),
        FunctionCallError::InnerError("Error happened during an IO operation: disk".to_string())
    );
}

#[test]
fn validation_is_loose_unless_asked_otherwise() {
    assert_eq!(FunctionValidationStrategy::default(), FunctionValidationStrategy::Loose);
}
