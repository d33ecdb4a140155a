use rs_bff::error::{error_body, http_status_of_code, AppError, BodyKind, GrpcCode, GrpcStatus, HttpReply};

fn grpc(code: GrpcCode, message: &str) -> AppError {
    AppError::Grpc(GrpcStatus { code, message: message.to_string() })
}

#[test]
fn grpc_codes_map_to_http_statuses() {
    assert_eq!(http_status_of_code(GrpcCode::NotFound), 404);
    assert_eq!(http_status_of_code(GrpcCode::InvalidArgument), 400);
    assert_eq!(http_status_of_code(GrpcCode::Unauthenticated), 401);
    assert_eq!(http_status_of_code(GrpcCode::PermissionDenied), 403);
    assert_eq!(http_status_of_code(GrpcCode::AlreadyExists), 409);
    assert_eq!(http_status_of_code(GrpcCode::Unavailable), 503);
    assert_eq!(http_status_of_code(GrpcCode::DeadlineExceeded), 504);
    for other in [
        GrpcCode::Okay,
        GrpcCode::Cancelled,
        GrpcCode::Unknown,
        GrpcCode::ResourceExhausted,
        GrpcCode::FailedPrecondition,
        GrpcCode::Aborted,
        GrpcCode::OutOfRange,
        GrpcCode::Unimplemented,
        GrpcCode::Internal,
        GrpcCode::DataLoss,
    ] {
        assert_eq!(http_status_of_code(other), 500);
    }
}

#[test]
fn grpc_error_reply_carries_status_message() {
    let r = grpc(GrpcCode::NotFound, "user 7 not found").into_response();
    assert_eq!(
        r,
        HttpReply {
            status: 404,
            kind: BodyKind::Json,
            body: "{\"code\":404,\"error\":\"user 7 not found\"}".to_string(),
        }
    );
}

#[test]
fn transport_error_reply_is_bad_gateway() {
    let r = AppError::GrpcTransport("transport error".to_string()).into_response();
    assert_eq!(r.status, 502);
    assert_eq!(r.body, "{\"code\":502,\"error\":\"upstream service unavailable\"}");
}

#[test]
fn serialization_error_reply_is_bad_request() {
    let r = AppError::Serialization("eof".to_string()).into_response();
    assert_eq!(r.status, 400);
    assert_eq!(r.body, "{\"code\":400,\"error\":\"request body serialization failed\"}");
}

#[test]
fn internal_error_reply_keeps_message() {
    let r = AppError::Internal("service 'x' not found in config".to_string()).into_response();
    assert_eq!(r.status, 500);
    assert_eq!(r.body, "{\"code\":500,\"error\":\"service 'x' not found in config\"}");
}

#[test]
fn error_body_escapes_message() {
    assert_eq!(
        error_body(500, "say \"hi\"\\\n\t\u{1}/é"),
        "{\"code\":500,\"error\":\"say \\\"hi\\\"\\\\\\n\\t\\u0001/é\"}"
    );
    assert_eq!(error_body(503, "\u{8}\u{c}\r\u{1f}\u{7f}"), "{\"code\":503,\"error\":\"\\b\\f\\r\\u001f\u{7f}\"}");
}

#[test]
fn error_body_matches_serde_json() {
    let message = "a\"b\\c\u{0}\u{1b}\u{2028}😀";
    let mut object = serde_json::Map::new();
    object.insert("error".to_string(), serde_json::Value::String(message.to_string()));
    object.insert("code".to_string(), serde_json::Value::from(418u16));
    let expected = serde_json::Value::Object(object).to_string();
    assert_eq!(error_body(418, message), expected);
}

#[test]
fn code_numbers_round_trip() {
    for n in 0..=16 {
        assert_eq!(GrpcCode::from_i32(n).number(), n);
    }
}

#[test]
fn unknown_code_numbers_become_unknown() {
    assert_eq!(GrpcCode::from_i32(17), GrpcCode::Unknown);
    assert_eq!(GrpcCode::from_i32(-1), GrpcCode::Unknown);
    assert_eq!(GrpcCode::from_i32(i32::MAX), GrpcCode::Unknown);
    assert_eq!(GrpcCode::from_i32(5), GrpcCode::NotFound);
    assert_eq!(GrpcCode::from_i32(16), GrpcCode::Unauthenticated);
    assert_eq!(GrpcCode::from_i32(0), GrpcCode::Okay);
}

#[test]
fn code_numbers_agree_with_tonic() {
    for n in -2..20 {
        assert_eq!(GrpcCode::from_i32(n).number(), tonic::Code::from_i32(n) as i32);
    }
}

#[test]
fn every_error_answers_with_error_status() {
    let errors = vec![
        AppError::Grpc(GrpcStatus { code: GrpcCode::Okay, message: String::new() }),
        AppError::Grpc(GrpcStatus { code: GrpcCode::NotFound, message: String::new() }),
        AppError::GrpcTransport(String::new()),
        AppError::Serialization(String::new()),
        AppError::Internal(String::new()),
    ];
    for e in errors {
        let status = e.status();
        assert!((400..=599).contains(&status));
        let reply = e.into_response();
        assert_eq!(reply.status, status);
        assert!(reply.body.starts_with(&format!("{{\"code\":{},", status)));
    }
}
