use llhd_playground::errors::Error;
use llhd_playground::wire::{encode_envelope, respond, CompileResponse, FATAL_ERROR_JSON};

#[test]
fn encodes_plain_text() {
    assert_eq!(encode_envelope("output", "hello"), "{\"output\":\"hello\"}");
}

#[test]
fn encodes_newline_escape() {
    assert_eq!(encode_envelope("output", "foo\n"), "{\"output\":\"foo\\n\"}");
}

#[test]
fn encodes_quote_and_backslash() {
    assert_eq!(encode_envelope("output", "a\"b\\c"), "{\"output\":\"a\\\"b\\\\c\"}");
}

#[test]
fn encodes_named_control_escapes() {
    assert_eq!(
        encode_envelope("output", "\u{8}\u{c}\n\r\t"),
        "{\"output\":\"\\b\\f\\n\\r\\t\"}"
    );
}

#[test]
fn encodes_numbered_control_escapes() {
    assert_eq!(encode_envelope("output", "\u{1}\u{1f}"), "{\"output\":\"\\u0001\\u001f\"}");
}

#[test]
fn leaves_unicode_unescaped() {
    assert_eq!(encode_envelope("output", "grün ✓"), "{\"output\":\"grün ✓\"}");
}

#[test]
fn responds_success_with_output_envelope() {
    let reply = respond(Ok(CompileResponse { output: String::from("done\n") }));
    assert_eq!(reply.status, 200);
    assert_eq!(reply.body, "{\"output\":\"done\\n\"}");
}

#[test]
fn responds_error_with_error_envelope() {
    let reply = respond(Err(Error::RequestMissing));
    assert_eq!(reply.status, 500);
    assert_eq!(reply.body, "{\"error\":\"No request was provided\"}");
}

#[test]
fn error_messages_are_stable() {
    let cause = || String::from("why");
    assert_eq!(
        Error::Serialization { cause: cause() }.message(),
        "Unable to serialize response: why"
    );
    assert_eq!(
        Error::Deserialization { cause: cause() }.message(),
        "Unable to deserialize request: why"
    );
    assert_eq!(Error::RequestMissing.message(), "No request was provided");
    assert_eq!(
        Error::UnableToCreateTempDir { cause: cause() }.message(),
        "Unable to create temporary directory: why"
    );
    assert_eq!(
        Error::UnableToCreateSourceFile { cause: cause() }.message(),
        "Unable to create source file: why"
    );
    assert_eq!(Error::UnableToFindModule.message(), "Unable to find a module in the input");
    assert_eq!(
        Error::UnableToExecuteCompiler { cause: cause() }.message(),
        "Unable to execute the compiler: why"
    );
    assert_eq!(
        Error::UnableToReadOutput { cause: cause() }.message(),
        "Unable to read output file: why"
    );
    assert_eq!(
        Error::OutputNotUtf8 { cause: cause() }.message(),
        "Output was not valid UTF-8: why"
    );
}

#[test]
fn fallback_body_is_well_formed() {
    assert_eq!(
        FATAL_ERROR_JSON,
        "{\"error\": \"Multiple cascading errors occurred, abandon all hope\"}"
    );
}
