use session_pipeline::chain::cookie_session_interceptor;
use session_pipeline::chain::header_text_or_empty;
use session_pipeline::chain::http_target;
use session_pipeline::chain::insert_empty_extension;
use session_pipeline::chain::remote_address_entry;
use session_pipeline::chain::CookieSessionLayer;
use session_pipeline::chain::RequestContext;
use session_pipeline::chain::SentrySessionLayer;
use session_pipeline::chain::TracingLayer;
use session_pipeline::config::build_config;
use session_pipeline::config::KEEP_ALIVE_TIMEOUT_SECS;
use session_pipeline::config::SHUTDOWN_GRACE_SECS;
use session_pipeline::error::Code;
use session_pipeline::error::ServiceError;
use session_pipeline::session::CookieSession;
use session_pipeline::session::CookieSessionContainer;

fn populated_context() -> RequestContext {
    RequestContext {
        store_attached: true,
        session: Some(CookieSessionContainer(Some(CookieSession {
            sid: "abc123".to_string(),
            uid: uuid::Uuid::new_v4(),
        }))),
    }
}

#[test]
fn interceptor_passes_a_resolved_session() {
    let ctx = populated_context();
    let out = cookie_session_interceptor(ctx).expect("the request passes");
    let session = out.session.unwrap().0.unwrap();
    assert_eq!(session.sid, "abc123");
}

#[test]
fn interceptor_rejects_an_empty_container_as_unauthenticated() {
    let ctx = RequestContext {
        store_attached: true,
        session: Some(CookieSessionContainer(None)),
    };
    let status = cookie_session_interceptor(ctx).unwrap_err();
    assert_eq!(status.code, Code::Unauthenticated);
    assert_eq!(status.message, "bad credential");
}

#[test]
fn interceptor_reports_a_missing_decorator_as_internal() {
    // The session slot was never written: the chain is misconfigured, and
    // the request must not silently pass.
    let ctx = RequestContext { store_attached: true, session: None };
    let status = cookie_session_interceptor(ctx).unwrap_err();
    assert_eq!(status.code, Code::Internal);
    assert_eq!(status.message, "cookie middleware not set");
}

#[test]
fn empty_extension_is_inserted_once() {
    let mut ctx = RequestContext { store_attached: true, session: None };
    insert_empty_extension(&mut ctx);
    assert!(ctx.session.as_ref().unwrap().0.is_none());

    let mut ctx = populated_context();
    insert_empty_extension(&mut ctx);
    assert!(ctx.session.unwrap().0.is_some());
}

#[test]
fn layers_wrap_the_inner_handler() {
    let traced = TracingLayer.layer(7u32);
    assert_eq!(traced.inner, 7);
    let with_session = CookieSessionLayer.layer("handler");
    assert_eq!(with_session.inner, "handler");
    let tracker = SentrySessionLayer::new().layer(7u32);
    assert_eq!(tracker.inner, 7);
    assert!(tracker.session.capture_server_errors);
}

#[test]
fn reporting_layer_builder() {
    let layer = SentrySessionLayer::new();
    assert!(!layer.get_emit_header());
    assert!(layer.get_capture_server_errors());

    let built = SentrySessionLayer::builder()
        .emit_header(true)
        .capture_server_errors(false)
        .finish();
    assert!(built.get_emit_header());
    assert!(!built.get_capture_server_errors());

    let rebuilt = built.into_builder().emit_header(false).finish();
    assert!(!rebuilt.get_emit_header());
    assert!(!rebuilt.get_capture_server_errors());

    let defaulted = SentrySessionLayer::default();
    assert!(!defaulted.get_emit_header());
    assert!(defaulted.get_capture_server_errors());
}

#[test]
fn request_target_rendering() {
    assert_eq!(http_target("/api/messages", None), "/api/messages");
    assert_eq!(http_target("/api/messages", Some("page=2")), "/api/messages?page=2");
}

#[test]
fn header_defaults_to_empty() {
    assert_eq!(header_text_or_empty(Some(Ok("agent/1.0".to_string()))), "agent/1.0");
    assert_eq!(header_text_or_empty(Some(Err("bad bytes".to_string()))), "");
    assert_eq!(header_text_or_empty(None), "");
}

#[test]
fn remote_address_is_redacted_without_pii() {
    let header = Some(Ok("10.0.0.1".to_string()));
    assert_eq!(remote_address_entry(true, header.clone()), Some("10.0.0.1".to_string()));
    assert_eq!(remote_address_entry(false, header), None);
    assert_eq!(remote_address_entry(true, None), None);
}

#[test]
fn full_configuration_builds() {
    let config = build_config(
        Some("0.0.0.0".to_string()),
        Some("50051".to_string()),
        Some("amqp://broker:5672".to_string()),
        Some("admin".to_string()),
        Some("SECRET-REDACTED".to_string()),
        Some("redis://store:6379".to_string()),
        Some("https://reporting.example/1".to_string()),
    )
    .expect("every value is present");
    assert_eq!(config.bind_address(), "0.0.0.0:50051");
    assert_eq!(config.redis_url, "redis://store:6379");
}

#[test]
fn missing_configuration_value_is_fatal() {
    let r = build_config(
        Some("0.0.0.0".to_string()),
        None,
        Some("amqp://broker:5672".to_string()),
        Some("admin".to_string()),
        Some("SECRET-REDACTED".to_string()),
        Some("redis://store:6379".to_string()),
        Some("https://reporting.example/1".to_string()),
    );
    match r {
        Err(e @ ServiceError::ConfigNotSet) => {
            assert_eq!(e.get_code(), Code::Internal);
            assert_eq!(e.message(), "app config not set");
        }
        other => panic!("expected the configuration error, got {:?}", other),
    }
}

#[test]
fn timing_constants() {
    assert_eq!(KEEP_ALIVE_TIMEOUT_SECS, 60);
    assert_eq!(SHUTDOWN_GRACE_SECS, 10);
}
