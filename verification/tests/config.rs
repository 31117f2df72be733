use chatgpt::config::ChatGPTEngine;
use chatgpt::err::Error;

#[test]
fn engines_go_by_their_names() {
    assert_eq!(ChatGPTEngine::Gpt35Turbo.as_ref(), "gpt-3.5-turbo");
    assert_eq!(ChatGPTEngine::Gpt35Turbo_0301.as_ref(), "gpt-3.5-turbo-0301");
    assert_eq!(ChatGPTEngine::Gpt4.as_ref(), "gpt-4");
    assert_eq!(ChatGPTEngine::Gpt4_32k.as_ref(), "gpt-4-32k");
    assert_eq!(ChatGPTEngine::Gpt4_0314.as_ref(), "gpt-4-0314");
    assert_eq!(ChatGPTEngine::Gpt4_32k_0314.as_ref(), "gpt-4-32k-0314");
    assert_eq!(ChatGPTEngine::Custom("my-model").as_ref(), "my-model");
    assert_eq!(ChatGPTEngine::Gpt4.name(), "gpt-4");
    assert_eq!(ChatGPTEngine::default(), ChatGPTEngine::Gpt35Turbo);
}

#[test]
fn errors_render_their_sentences() {
    assert_eq!(
        Error::ClientError("x".to_string()).message(),
        "An error occurred when processing a request: x"
    );
    assert_eq!(
        Error::InvalidConfiguration("x".to_string()).message(),
        "Invalid configuration provided: x"
    );
    assert_eq!(Error::ParsingError("x".to_string()).message(), "Parsing error has occurred: x");
    assert_eq!(Error::SerdeJsonError("x".to_string()).message(), "Failed to (de)serialize data: x");
    assert_eq!(Error::PostcardError("x".to_string()).message(), "Failed to (de)serialize data: x");
    assert_eq!(
        Error::StringError("x".to_string()).message(),
        "Failed to parse string from UTF-8: x"
    );
    assert_eq!(
        Error::BackendError { message: "overloaded".to_string(), error_type: "server_error".to_string() }
            .message(),
        "An error occurred while processing request: overloaded"
    );
    assert_eq!(
        Error::IOError("x".to_string()).message(),
        "Error happened during an IO operation: x"
    );
    assert_eq!(
        Error::VarError("x".to_string()).message(),
        "Error while trying to access an environment variable: x"
    );
    assert_eq!(Error::InvalidChunkSequence.message(), "Invalid response chunk sequence!");
    assert_eq!(Error::MalformedStream("x".to_string()).message(), "Malformed event stream: x");
}
