use rs_bff::channel::{configure_endpoint, connected_channel, endpoint_plan, ChannelSettings, EndpointPlan};
use rs_bff::error::{AppError, BodyKind};
use rs_bff::greeter::greeter_reply;
use rs_bff::reply::{api_not_found, api_not_found_reply, home, not_found_handler, EmptyObject, Reply};
use rs_bff::text::decimal_text;

#[test]
fn home_greets() {
    let r = home();
    assert_eq!(r.status, 200);
    assert_eq!(r.kind, BodyKind::Text);
    assert_eq!(r.body, "hello,bff");
}

#[test]
fn unknown_page_is_not_found() {
    let r = not_found_handler();
    assert_eq!(r.status, 404);
    assert_eq!(r.kind, BodyKind::Json);
    assert_eq!(r.body, "{\"code\":404,\"message\":\"api not found\",\"data\":{}}");
    assert_eq!(r, api_not_found());
}

#[test]
fn unknown_api_path_gets_json_envelope() {
    let r = api_not_found();
    assert_eq!(r.status, 404);
    assert_eq!(r.kind, BodyKind::Json);
    assert_eq!(r.body, "{\"code\":404,\"message\":\"api not found\",\"data\":{}}");
}

#[test]
fn api_not_found_envelope_fields() {
    let r = api_not_found_reply();
    assert_eq!(r, Reply { code: 404, message: "api not found".to_string(), data: Some(EmptyObject {}) });
}

#[test]
fn reply_without_data_writes_null() {
    let r: Reply<EmptyObject> = Reply { code: -1, message: "x\"y".to_string(), data: None };
    assert_eq!(r.to_json(), "{\"code\":-1,\"message\":\"x\\\"y\",\"data\":null}");
}

#[test]
fn decimal_text_of_extremes() {
    assert_eq!(decimal_text(0), "0");
    assert_eq!(decimal_text(10), "10");
    assert_eq!(decimal_text(-7), "-7");
    assert_eq!(decimal_text(i64::MAX), i64::MAX.to_string());
    assert_eq!(decimal_text(i64::MIN), i64::MIN.to_string());
}

#[test]
fn greeter_reply_passes_message() {
    assert_eq!(greeter_reply(Ok("hello,daheige".to_string())), "hello,daheige");
}

#[test]
fn greeter_reply_hides_failure() {
    let err = AppError::Internal("boom".to_string());
    assert_eq!(greeter_reply(Err(err)), "request error");
}

#[test]
fn channel_settings_of_gateway() {
    let s = ChannelSettings::gateway();
    assert_eq!(s.keep_alive_interval_secs, 30);
    assert_eq!(s.keep_alive_timeout_secs, 20);
    assert!(s.keep_alive_while_idle);
    assert_eq!(s.request_timeout_secs, 30);
    assert_eq!(s.connect_timeout_secs, 10);
}

#[test]
fn endpoint_plan_holds_address_and_gateway_settings() {
    assert_eq!(
        endpoint_plan("http://127.0.0.1:50051"),
        EndpointPlan { addr: "http://127.0.0.1:50051".to_string(), settings: ChannelSettings::gateway() }
    );
}

#[test]
fn configure_endpoint_accepts_http_address() {
    let planned = configure_endpoint("http://127.0.0.1:50051").ok().expect("valid address");
    assert_eq!(*planned.plan(), endpoint_plan("http://127.0.0.1:50051"));
    assert_eq!(planned.into_endpoint().uri().to_string(), "http://127.0.0.1:50051/");
}

#[test]
fn configure_endpoint_applies_connect_timeout() {
    let planned = configure_endpoint("http://127.0.0.1:50051").ok().expect("valid address");
    assert_eq!(planned.into_endpoint().get_connect_timeout(), Some(std::time::Duration::from_secs(10)));
}

#[test]
fn configure_endpoint_accepts_unix_socket() {
    let planned = configure_endpoint("unix:/tmp/greeter.sock").ok().expect("socket path");
    assert_eq!(planned.plan().addr, "unix:/tmp/greeter.sock");
}

#[test]
fn configure_endpoint_rejects_invalid_uri() {
    let err = configure_endpoint("http://bad uri").err().expect("invalid address");
    assert_eq!(err, AppError::Internal("invalid service uri: http://bad uri err: invalid URI".to_string()));
    assert_eq!(err.into_response().status, 500);
}

#[test]
fn configure_endpoint_rejects_empty_address() {
    let err = configure_endpoint("").err().expect("empty address");
    assert_eq!(err, AppError::Internal("invalid service uri:  err: invalid URI".to_string()));
}

#[test]
fn failed_connect_is_transport_error() {
    let res: Result<u8, AppError> = connected_channel(Err("transport error".to_string()));
    let err = res.err().expect("failed connect");
    assert_eq!(err, AppError::GrpcTransport("transport error".to_string()));
    assert_eq!(err.into_response().status, 502);
}

#[test]
fn made_connection_is_passed_on() {
    assert_eq!(connected_channel::<u8>(Ok(7)), Ok(7));
}
