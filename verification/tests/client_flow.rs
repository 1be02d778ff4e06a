use netatmo_api::authenticate::{token_from_body, Scope, Token};
use netatmo_api::errors::{ErrorCause, ErrorKind};
use netatmo_api::set_room_thermpoint::{response_from_body, Parameters, Mode};
use netatmo_api::wire::ParamMap;
use netatmo_api::{
    classify_status, error_for_known_status, error_from_error_body, response_outcome,
    AuthenticatedClient, ClientCredentials, Netatmo, NetatmoClient, StatusClass,
};

fn credentials() -> ClientCredentials {
    ClientCredentials { client_id: "id".to_string(), client_secret: "secret".to_string() }
}

fn sample_token() -> Token {
    Token {
        access_token: "tok".to_string(),
        refresh_token: "refresh".to_string(),
        scope: vec![Scope::ReadStation],
        expires_in: 100,
        expire_in: 100,
    }
}

fn unreachable_client() -> AuthenticatedClient {
    NetatmoClient::with_token(sample_token()).base_url("http://127.0.0.1:9")
}

#[test]
fn with_token_holds_the_given_token() {
    let client = NetatmoClient::with_token(sample_token());
    assert_eq!(client.token().access_token, "tok");
    assert_eq!(client.token().refresh_token, "refresh");
    assert_eq!(client.token().scope, vec![Scope::ReadStation]);
    assert_eq!(client.token().expires_in, 100);
    assert_eq!(client.token().expire_in, 100);
}

#[test]
fn call_path_injects_current_token_overwriting_stale_value() {
    let client = NetatmoClient::with_token(sample_token());
    let mut params = ParamMap::new();
    params.insert("access_token", "stale".to_string());
    params.insert("device_id", "dev1".to_string());
    let injected = client.params_with_token(params);
    assert_eq!(injected.get("access_token"), Some(&"tok".to_string()));
    assert_eq!(injected.get("device_id"), Some(&"dev1".to_string()));
}

#[test]
fn token_injection_adds_the_key_when_absent() {
    let client = NetatmoClient::with_token(sample_token());
    let injected = client.params_with_token(ParamMap::new());
    assert_eq!(injected.get("access_token"), Some(&"tok".to_string()));
}

#[test]
fn status_classification_bands() {
    assert_eq!(classify_status(200, 200), StatusClass::Expected);
    assert_eq!(classify_status(400, 200), StatusClass::KnownError);
    assert_eq!(classify_status(401, 200), StatusClass::KnownError);
    assert_eq!(classify_status(403, 200), StatusClass::KnownError);
    assert_eq!(classify_status(404, 200), StatusClass::KnownError);
    assert_eq!(classify_status(406, 200), StatusClass::KnownError);
    assert_eq!(classify_status(500, 200), StatusClass::KnownError);
    assert_eq!(classify_status(418, 200), StatusClass::Unknown);
    assert_eq!(classify_status(204, 200), StatusClass::Unknown);
    assert_eq!(classify_status(401, 401), StatusClass::Expected);
}

#[test]
fn recognized_status_with_error_body_yields_api_call_failed() {
    let e = error_from_error_body(
        "getstationsdata",
        401,
        r#"{"error":{"code":9,"message":"Device not found"}}"#,
    );
    assert_eq!(
        e.kind,
        ErrorKind::ApiCallFailed {
            name: "getstationsdata".to_string(),
            code: 9,
            msg: "Device not found".to_string(),
        }
    );
    assert!(e.cause.is_none());
}

#[test]
fn recognized_status_with_unparsable_body_yields_unknown_failure() {
    let e = error_from_error_body("getstationsdata", 401, "not json");
    assert_eq!(
        e.kind,
        ErrorKind::UnknownApiCallFailure { name: "getstationsdata".to_string(), status_code: 401 }
    );
    assert!(matches!(e.cause, Some(ErrorCause::Text(_))));
}

#[test]
fn recognized_status_with_wrong_error_shape_yields_unknown_failure() {
    let e = error_from_error_body("homestatus", 500, r#"{"error":"plain text"}"#);
    assert_eq!(
        e.kind,
        ErrorKind::UnknownApiCallFailure { name: "homestatus".to_string(), status_code: 500 }
    );
    assert!(matches!(e.cause, Some(ErrorCause::Text(_))));
}

#[test]
fn known_status_error_construction() {
    let e = error_for_known_status("op", 401, Ok((7, "m".to_string())));
    assert_eq!(
        e.kind,
        ErrorKind::ApiCallFailed { name: "op".to_string(), code: 7, msg: "m".to_string() }
    );
    assert!(e.cause.is_none());
    let e = error_for_known_status("op", 500, Err("no such shape".to_string()));
    assert_eq!(
        e.kind,
        ErrorKind::UnknownApiCallFailure { name: "op".to_string(), status_code: 500 }
    );
    match e.cause {
        Some(ErrorCause::Text(t)) => assert_eq!(t, "no such shape"),
        _ => panic!("the decode failure must be chained as the cause"),
    }
}

#[test]
fn response_outcome_three_way() {
    let body = response_outcome("op", 200, 200, Ok(r#"{"x":1}"#.to_string()))
        .expect("the expected status passes the body through");
    assert_eq!(body, r#"{"x":1}"#);

    let e = response_outcome("op", 200, 200, Err("aborted".to_string()))
        .err()
        .expect("a failed read on the expected status must fail");
    assert_eq!(e.kind, ErrorKind::FailedToReadResponse);
    match e.cause {
        Some(ErrorCause::Text(t)) => assert_eq!(t, "aborted"),
        _ => panic!("the read failure must be chained as the cause"),
    }

    let e = response_outcome("op", 200, 401, Ok(r#"{"error":{"code":2,"message":"m"}}"#.to_string()))
        .err()
        .expect("a recognized error status must fail");
    assert_eq!(
        e.kind,
        ErrorKind::ApiCallFailed { name: "op".to_string(), code: 2, msg: "m".to_string() }
    );

    let e = response_outcome("op", 200, 401, Ok("not json".to_string()))
        .err()
        .expect("an undecodable error body must fail");
    assert_eq!(
        e.kind,
        ErrorKind::UnknownApiCallFailure { name: "op".to_string(), status_code: 401 }
    );
    assert!(matches!(e.cause, Some(ErrorCause::Text(_))));

    let e = response_outcome("op", 200, 500, Err("aborted".to_string()))
        .err()
        .expect("a failed read on a recognized error status must fail");
    assert_eq!(
        e.kind,
        ErrorKind::UnknownApiCallFailure { name: "op".to_string(), status_code: 500 }
    );
    assert!(matches!(e.cause, Some(ErrorCause::Text(_))));

    let e = response_outcome("op", 200, 418, Ok(r#"{"error":{"code":2,"message":"m"}}"#.to_string()))
        .err()
        .expect("an unrecognized status must fail regardless of the body");
    assert_eq!(
        e.kind,
        ErrorKind::UnknownApiCallFailure { name: "op".to_string(), status_code: 418 }
    );
    assert!(e.cause.is_none());
}

#[test]
fn token_body_decodes_field_for_field() {
    let token = token_from_body(
        r#"{"access_token":"abc","refresh_token":"def","scope":["read_station","write_thermostat"],"expires_in":10800,"expire_in":10800}"#,
    )
        .expect("a well-formed token body decodes");
    assert_eq!(token.access_token, "abc");
    assert_eq!(token.refresh_token, "def");
    assert_eq!(token.scope, vec![Scope::ReadStation, Scope::WriteThermostat]);
    assert_eq!(token.expires_in, 10800);
    assert_eq!(token.expire_in, 10800);
}

#[test]
fn sample_token_body_round_trip() {
    let token = token_from_body(
        r#"{"access_token":"a","refresh_token":"r","scope":["read_station"],"expires_in":100,"expire_in":100}"#,
    )
        .expect("the sample token body decodes");
    let client = NetatmoClient::with_token(token);
    assert_eq!(client.token().access_token, "a");
    assert_eq!(client.token().refresh_token, "r");
    assert_eq!(client.token().scope, vec![Scope::ReadStation]);
    assert_eq!(client.token().expires_in, 100);
    assert_eq!(client.token().expire_in, 100);
}

#[test]
fn token_body_with_unknown_scope_fails_to_decode() {
    let err = token_from_body(
        r#"{"access_token":"abc","refresh_token":"def","scope":["read_everything"],"expires_in":1,"expire_in":1}"#,
    )
        .err()
        .expect("an unknown scope must fail the decode");
    assert_eq!(err.kind, ErrorKind::JsonDeserializationFailed);
    assert!(matches!(err.cause, Some(ErrorCause::Text(_))));
}

#[test]
fn token_body_missing_field_fails_to_decode() {
    let err = token_from_body(r#"{"access_token":"abc"}"#)
        .err()
        .expect("a missing field must fail the decode");
    assert_eq!(err.kind, ErrorKind::JsonDeserializationFailed);
    assert!(matches!(err.cause, Some(ErrorCause::Text(_))));
}

#[test]
fn thermpoint_body_decodes_typed_response() {
    let response = response_from_body(r#"{"status":"ok","time_server":1556451492}"#)
        .expect("a well-formed status body decodes");
    assert_eq!(response.status, "ok");
    assert_eq!(response.time_server, 1556451492);
}

#[test]
fn thermpoint_unparsable_body_is_a_decode_failure() {
    let err = response_from_body("not json")
        .err()
        .expect("an unparsable success body must fail");
    assert_eq!(err.kind, ErrorKind::JsonDeserializationFailed);
    assert!(matches!(err.cause, Some(ErrorCause::Text(_))));
}

#[test]
fn unreachable_endpoint_fails_to_send() {
    let client = unreachable_client();
    let err = client.get_station_data("dev1").err().expect("nothing listens on the address");
    assert_eq!(err.kind, ErrorKind::FailedToSendRequest);
}

#[test]
fn measure_call_surfaces_transport_failure() {
    let client = unreachable_client();
    let params = netatmo_api::get_measure::Parameters::new(
        "dev1",
        netatmo_api::get_measure::Scale::Max,
        vec![netatmo_api::get_measure::Type::Temperature],
    );
    let err = client.get_measure(&params).err().expect("nothing listens on the address");
    assert_eq!(err.kind, ErrorKind::FailedToSendRequest);
}

#[test]
fn thermpoint_call_surfaces_transport_failure() {
    let client = unreachable_client();
    let params = Parameters::new("h", "r", Mode::Home);
    let err = client.set_room_thermpoint(&params).err().expect("nothing listens on the address");
    assert_eq!(err.kind, ErrorKind::FailedToSendRequest);
}

#[test]
fn authenticate_failure_has_kind_and_cause() {
    let c = credentials();
    let err = NetatmoClient::new(&c)
        .base_url("http://127.0.0.1:9")
        .authenticate("user", "pass", &vec![Scope::ReadStation])
        .err()
        .expect("authentication must fail when nothing listens");
    assert_eq!(err.kind, ErrorKind::AuthenticationFailed);
    match err.cause {
        Some(ErrorCause::Inner(inner)) => {
            assert_eq!(inner.kind, ErrorKind::FailedToSendRequest);
        },
        _ => panic!("the underlying failure must be chained as the cause"),
    }
}

#[test]
fn error_clone_keeps_the_kind() {
    let e = error_for_known_status("op", 401, Ok((7, "m".to_string())));
    let cloned = e.clone();
    assert_eq!(cloned.kind, e.kind);
    assert!(cloned.cause.is_none());
    assert_eq!(e.kind(), &e.kind);
}
