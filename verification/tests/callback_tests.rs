use orca::callback::{default_response_body, CallbackListener};
use orca::errors::InstalledAppError;

#[test]
fn first_good_callback_completes_with_the_code() {
    let mut listener = CallbackListener::arm("abc123");
    let outcome = listener.handle_callback("state=abc123&code=XYZ");
    assert_eq!(outcome, Ok(b"XYZ".to_vec()));
    assert_eq!(listener.outcome(), Some(Ok(b"XYZ".to_vec())));
}

#[test]
fn second_callback_is_already_received_and_first_result_stands() {
    let mut listener = CallbackListener::arm("abc123");
    let first = listener.handle_callback("state=abc123&code=XYZ");
    assert_eq!(first, Ok(b"XYZ".to_vec()));
    let second = listener.handle_callback("state=abc123&code=OTHER");
    assert_eq!(second, Err(InstalledAppError::AlreadyReceived));
    assert_eq!(listener.outcome(), Some(Ok(b"XYZ".to_vec())));
}

#[test]
fn mismatched_state_is_rejected() {
    let mut listener = CallbackListener::arm("abc123");
    let outcome = listener.handle_callback("state=wrong&code=XYZ");
    assert_eq!(outcome, Err(InstalledAppError::MismatchedState));
}

#[test]
fn missing_state_is_rejected() {
    let mut listener = CallbackListener::arm("abc123");
    let outcome = listener.handle_callback("code=XYZ");
    assert_eq!(outcome, Err(InstalledAppError::MismatchedState));
}

#[test]
fn error_parameter_wins_and_is_decoded() {
    let mut listener = CallbackListener::arm("abc123");
    let outcome = listener.handle_callback("error=access%20denied&state=abc123&code=XYZ");
    assert_eq!(
        outcome,
        Err(InstalledAppError::ProviderError { msg: "access denied".to_string() })
    );
}

#[test]
fn plus_decodes_to_a_space() {
    let mut listener = CallbackListener::arm("abc123");
    let outcome = listener.handle_callback("error=too+many+scopes");
    assert_eq!(
        outcome,
        Err(InstalledAppError::ProviderError { msg: "too many scopes".to_string() })
    );
}

#[test]
fn percent_encoded_code_is_decoded() {
    let mut listener = CallbackListener::arm("st");
    let outcome = listener.handle_callback("state=st&code=a%2Fb%2bc");
    assert_eq!(outcome, Ok(b"a/b+c".to_vec()));
}

#[test]
fn repeated_parameters_read_as_the_last_occurrence() {
    let mut listener = CallbackListener::arm("right");
    let outcome = listener.handle_callback("state=wrong&state=right&code=A&code=B");
    assert_eq!(outcome, Ok(b"B".to_vec()));
}

#[test]
fn unfinished_listener_has_no_outcome() {
    let listener = CallbackListener::arm("abc123");
    assert_eq!(listener.outcome(), None);
}

#[test]
fn default_response_bodies() {
    assert_eq!(default_response_body(&Ok(b"XYZ".to_vec())), "Successfully authorized");
    assert_eq!(
        default_response_body(&Err(InstalledAppError::MismatchedState)),
        "Failed to authorize app: The states did not match"
    );
    assert_eq!(
        default_response_body(&Err(InstalledAppError::ProviderError {
            msg: "access denied".to_string()
        })),
        "Failed to authorize app: Got an error from the provider: access denied"
    );
}
