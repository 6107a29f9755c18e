//! Tests for the API facade's resolution of transport outcomes and response
//! envelopes.

use tgbot::api::{complete_call, interpret_envelope, ResponseEnvelope};
use tgbot::errors::{ApiClientError, DecodeError, TransportError};

fn ok_envelope(result: Option<i64>) -> ResponseEnvelope<i64> {
    ResponseEnvelope { ok: true, result, error_code: None, description: None }
}

#[test]
fn success_envelope_yields_payload() {
    assert_eq!(interpret_envelope(ok_envelope(Some(42))), Ok(42));
}

#[test]
fn success_envelope_without_payload_is_a_decode_error() {
    assert_eq!(
        interpret_envelope(ok_envelope(None)),
        Err(ApiClientError::Decode(DecodeError::BadPayload))
    );
}

#[test]
fn failure_envelope_preserves_code_and_description() {
    let env: ResponseEnvelope<i64> = ResponseEnvelope {
        ok: false,
        result: None,
        error_code: Some(400),
        description: Some("Bad Request: chat not found".to_string()),
    };
    assert_eq!(
        interpret_envelope(env),
        Err(ApiClientError::Api {
            code: Some(400),
            description: Some("Bad Request: chat not found".to_string()),
        })
    );
}

#[test]
fn transport_failure_is_surfaced_unchanged() {
    let outcome: Result<ResponseEnvelope<i64>, TransportError> = Err(TransportError::Timeout);
    assert_eq!(
        complete_call(outcome),
        Err(ApiClientError::Transport(TransportError::Timeout))
    );

    let outcome: Result<ResponseEnvelope<i64>, TransportError> =
        Err(TransportError::Status { code: 502, body: vec![104, 105] });
    assert_eq!(
        complete_call(outcome),
        Err(ApiClientError::Transport(TransportError::Status { code: 502, body: vec![104, 105] }))
    );
}

#[test]
fn delivered_envelope_is_resolved() {
    let outcome: Result<ResponseEnvelope<i64>, TransportError> = Ok(ok_envelope(Some(7)));
    assert_eq!(complete_call(outcome), Ok(7));
}
