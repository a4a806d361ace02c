use chat_relay::client::{on_status, request_for, transport_failure, AfterStatus, ForwardError};
use chat_relay::types::ChatMessageOutput;

fn some_reply() -> ChatMessageOutput {
    ChatMessageOutput { body: "hi".to_string(), tx_array: None, structured_data: None }
}

#[test]
fn request_carries_query_and_no_credential() {
    let request = request_for("hello".to_string());
    assert_eq!(request.body, "hello");
    assert!(request.api_key.is_none());
}

#[test]
fn request_for_empty_query() {
    let request = request_for(String::new());
    assert_eq!(request.body, "");
    assert!(request.api_key.is_none());
}

#[test]
fn no_response_is_a_transport_error() {
    assert_eq!(
        transport_failure("connection refused".to_string()),
        ForwardError::Transport { cause: "connection refused".to_string() }
    );
}

#[test]
fn status_500_with_boom_is_a_backend_error() {
    match on_status(500) {
        AfterStatus::Explain(state) => {
            let outcome = state.finish(Ok("boom".to_string()));
            assert_eq!(
                outcome.unwrap_err(),
                ForwardError::Backend { status: 500, body: "boom".to_string() }
            );
        }
        AfterStatus::Decode(_) => panic!("500 is no success"),
    }
}

#[test]
fn success_with_unparsable_body_is_a_transport_error() {
    match on_status(200) {
        AfterStatus::Decode(state) => {
            let outcome = state.finish(Err("expected value at line 1 column 1".to_string()));
            assert_eq!(
                outcome.unwrap_err(),
                ForwardError::Transport { cause: "expected value at line 1 column 1".to_string() }
            );
        }
        AfterStatus::Explain(_) => panic!("200 is a success"),
    }
}

#[test]
fn success_with_decoded_body_is_the_reply() {
    match on_status(201) {
        AfterStatus::Decode(state) => {
            let outcome = state.finish(Ok(some_reply())).unwrap();
            assert_eq!(outcome.body, "hi");
            assert!(outcome.tx_array.is_none());
            assert!(outcome.structured_data.is_none());
        }
        AfterStatus::Explain(_) => panic!("201 is a success"),
    }
}

#[test]
fn unreadable_error_text_is_a_transport_error() {
    match on_status(502) {
        AfterStatus::Explain(state) => {
            let outcome = state.finish(Err("connection reset".to_string()));
            assert_eq!(
                outcome.unwrap_err(),
                ForwardError::Transport { cause: "connection reset".to_string() }
            );
        }
        AfterStatus::Decode(_) => panic!("502 is no success"),
    }
}

#[test]
fn success_is_200_to_299() {
    for status in [200u16, 201, 204, 250, 299] {
        assert!(matches!(on_status(status), AfterStatus::Decode(_)), "{}", status);
    }
    for status in [0u16, 100, 199, 300, 301, 404, 500, 599, 1000, u16::MAX] {
        assert!(matches!(on_status(status), AfterStatus::Explain(_)), "{}", status);
    }
}

#[test]
fn backend_error_keeps_status_and_empty_body() {
    match on_status(404) {
        AfterStatus::Explain(state) => {
            let outcome = state.finish(Ok(String::new()));
            assert_eq!(
                outcome.unwrap_err(),
                ForwardError::Backend { status: 404, body: String::new() }
            );
        }
        AfterStatus::Decode(_) => panic!("404 is no success"),
    }
}
