use session_pipeline::error::AmqpErrorKind;
use session_pipeline::error::Code;
use session_pipeline::error::HttpClientErrorKind;
use session_pipeline::error::RedisErrorKind;
use session_pipeline::error::ServiceError;
use session_pipeline::error::Severity;
use session_pipeline::error::TaskJoinKind;

fn reqwest(kind: HttpClientErrorKind) -> ServiceError {
    ServiceError::Reqwest(kind, "client failure".to_string())
}

fn redis(kind: RedisErrorKind) -> ServiceError {
    ServiceError::Redis(kind, "store failure".to_string())
}

fn amqp(kind: AmqpErrorKind) -> ServiceError {
    ServiceError::LapinAMQP(kind, "queue failure".to_string())
}

#[test]
fn http_client_codes() {
    assert_eq!(reqwest(HttpClientErrorKind::Body).get_code(), Code::InvalidArgument);
    assert_eq!(reqwest(HttpClientErrorKind::Builder).get_code(), Code::Internal);
    assert_eq!(reqwest(HttpClientErrorKind::Connect).get_code(), Code::Unavailable);
    assert_eq!(reqwest(HttpClientErrorKind::Decode).get_code(), Code::FailedPrecondition);
    assert_eq!(reqwest(HttpClientErrorKind::Redirect).get_code(), Code::Internal);
    assert_eq!(reqwest(HttpClientErrorKind::Timeout).get_code(), Code::DeadlineExceeded);
    assert_eq!(reqwest(HttpClientErrorKind::Request).get_code(), Code::FailedPrecondition);
    assert_eq!(reqwest(HttpClientErrorKind::Status).get_code(), Code::FailedPrecondition);
    assert_eq!(reqwest(HttpClientErrorKind::Other).get_code(), Code::Internal);
}

#[test]
fn http_client_severities() {
    assert_eq!(reqwest(HttpClientErrorKind::Body).severity(), Severity::Warning);
    assert_eq!(reqwest(HttpClientErrorKind::Builder).severity(), Severity::Fatal);
    assert_eq!(reqwest(HttpClientErrorKind::Connect).severity(), Severity::Error);
    assert_eq!(reqwest(HttpClientErrorKind::Redirect).severity(), Severity::Warning);
    assert_eq!(reqwest(HttpClientErrorKind::Request).severity(), Severity::Error);
}

#[test]
fn store_codes() {
    assert_eq!(redis(RedisErrorKind::Timeout).get_code(), Code::FailedPrecondition);
    assert_eq!(redis(RedisErrorKind::ClusterError).get_code(), Code::Unavailable);
    assert_eq!(redis(RedisErrorKind::ConnectionDropped).get_code(), Code::Unavailable);
    assert_eq!(redis(RedisErrorKind::ConnectionRefused).get_code(), Code::Unavailable);
    assert_eq!(redis(RedisErrorKind::Io).get_code(), Code::Internal);
    assert_eq!(redis(RedisErrorKind::Other).get_code(), Code::Unavailable);
}

#[test]
fn store_severities() {
    assert_eq!(redis(RedisErrorKind::Timeout).severity(), Severity::Warning);
    assert_eq!(redis(RedisErrorKind::ClusterError).severity(), Severity::Error);
    assert_eq!(redis(RedisErrorKind::ConnectionDropped).severity(), Severity::Warning);
    assert_eq!(redis(RedisErrorKind::ConnectionRefused).severity(), Severity::Error);
    assert_eq!(redis(RedisErrorKind::Io).severity(), Severity::Fatal);
    assert_eq!(redis(RedisErrorKind::Other).severity(), Severity::Warning);
}

#[test]
fn queue_codes() {
    assert_eq!(amqp(AmqpErrorKind::ChannelsLimitReached).get_code(), Code::ResourceExhausted);
    assert_eq!(amqp(AmqpErrorKind::InvalidProtocolVersion).get_code(), Code::Internal);
    assert_eq!(amqp(AmqpErrorKind::InvalidChannel).get_code(), Code::FailedPrecondition);
    assert_eq!(amqp(AmqpErrorKind::InvalidChannelState).get_code(), Code::Unavailable);
    assert_eq!(amqp(AmqpErrorKind::InvalidConnectionState).get_code(), Code::Unavailable);
    assert_eq!(amqp(AmqpErrorKind::Io).get_code(), Code::Internal);
    assert_eq!(amqp(AmqpErrorKind::Parsing).get_code(), Code::FailedPrecondition);
    assert_eq!(amqp(AmqpErrorKind::Protocol).get_code(), Code::Internal);
    assert_eq!(amqp(AmqpErrorKind::Serialisation).get_code(), Code::FailedPrecondition);
    assert_eq!(amqp(AmqpErrorKind::Other).get_code(), Code::Internal);
}

#[test]
fn queue_fatal_severities() {
    assert_eq!(amqp(AmqpErrorKind::InvalidProtocolVersion).severity(), Severity::Fatal);
    assert_eq!(amqp(AmqpErrorKind::Io).severity(), Severity::Fatal);
    assert_eq!(amqp(AmqpErrorKind::Protocol).severity(), Severity::Fatal);
    assert_eq!(amqp(AmqpErrorKind::Other).severity(), Severity::Fatal);
    assert_eq!(amqp(AmqpErrorKind::ChannelsLimitReached).severity(), Severity::Warning);
}

#[test]
fn task_join_codes() {
    let panic = ServiceError::TaskJoinError(TaskJoinKind::Panic, "panicked".to_string());
    let cancelled = ServiceError::TaskJoinError(TaskJoinKind::Cancelled, "cancelled".to_string());
    let other = ServiceError::TaskJoinError(TaskJoinKind::Other, "failed".to_string());
    assert_eq!(panic.get_code(), Code::Internal);
    assert_eq!(panic.severity(), Severity::Fatal);
    assert_eq!(cancelled.get_code(), Code::Cancelled);
    assert_eq!(cancelled.severity(), Severity::Silent);
    assert!(cancelled.report_message().is_none());
    assert_eq!(other.get_code(), Code::Internal);
    assert_eq!(other.severity(), Severity::Warning);
}

#[test]
fn timeout_codes_are_deadline_exceeded() {
    assert_eq!(ServiceError::QueueDeclareTimeout.get_code(), Code::DeadlineExceeded);
    assert_eq!(ServiceError::QueueBindTimeout.get_code(), Code::DeadlineExceeded);
    assert_eq!(ServiceError::QueueBasicConsumeTimeout.get_code(), Code::DeadlineExceeded);
    assert_eq!(ServiceError::QueueBasicAckTimeout.get_code(), Code::DeadlineExceeded);
    assert_eq!(ServiceError::ClientTimeout.get_code(), Code::DeadlineExceeded);
}

#[test]
fn credential_and_validation_are_silent() {
    let bad = ServiceError::BadCredential;
    assert_eq!(bad.get_code(), Code::Unauthenticated);
    assert_eq!(bad.severity(), Severity::Silent);
    assert!(bad.report_message().is_none());

    let validation = ServiceError::ValidateFailure {
        field: "name".to_string(),
        reason: "too short".to_string(),
    };
    assert_eq!(validation.get_code(), Code::InvalidArgument);
    assert_eq!(validation.severity(), Severity::Silent);
    assert!(validation.report_message().is_none());
}

#[test]
fn remaining_codes() {
    assert_eq!(
        ServiceError::MiddlewareNotSet("config".to_string()).get_code(),
        Code::Internal
    );
    assert_eq!(ServiceError::ConfigNotSet.get_code(), Code::Internal);
    assert_eq!(ServiceError::RcHasReference.get_code(), Code::Internal);
    assert_eq!(ServiceError::ParseMessage("oops".to_string()).get_code(), Code::Internal);
    assert_eq!(ServiceError::ParseInt("bad int".to_string()).get_code(), Code::InvalidArgument);
    assert_eq!(ServiceError::ParseUtf8("bad utf8".to_string()).get_code(), Code::InvalidArgument);
    assert_eq!(
        ServiceError::Rejected("not allowed".to_string()).get_code(),
        Code::PermissionDenied
    );
    assert_eq!(ServiceError::Uuid("bad uuid".to_string()).get_code(), Code::InvalidArgument);
    let conversion = ServiceError::TryFrom {
        field: "age".to_string(),
        from: "abc".to_string(),
        into: "u32".to_string(),
        expect: "a number".to_string(),
    };
    assert_eq!(conversion.get_code(), Code::DataLoss);
    assert_eq!(conversion.severity(), Severity::Silent);
    assert_eq!(ServiceError::EmptySliceIndex(3).get_code(), Code::FailedPrecondition);
    assert_eq!(ServiceError::SendError.get_code(), Code::FailedPrecondition);
    assert_eq!(
        ServiceError::OneshotRecvError("closed".to_string()).get_code(),
        Code::FailedPrecondition
    );
    assert_eq!(
        ServiceError::SemaphoreAquire("closed".to_string()).get_code(),
        Code::FailedPrecondition
    );
    assert_eq!(
        ServiceError::CookieParse("missing pair".to_string()).get_code(),
        Code::FailedPrecondition
    );
    assert_eq!(
        ServiceError::HttpHeader("not text".to_string()).get_code(),
        Code::FailedPrecondition
    );
    assert_eq!(ServiceError::HttpHeaderNotFound.get_code(), Code::Internal);
    assert_eq!(
        ServiceError::MsgPackDecodeError("truncated".to_string()).get_code(),
        Code::FailedPrecondition
    );
    assert_eq!(
        ServiceError::MsgPackEncodeError("unsupported".to_string()).get_code(),
        Code::FailedPrecondition
    );
}

#[test]
fn classification_is_idempotent() {
    let e = ServiceError::Redis(RedisErrorKind::Io, "io failure".to_string());
    let first = e.classify();
    let second = e.classify();
    assert_eq!(first.code, second.code);
    assert_eq!(first.severity, second.severity);
    assert_eq!(first.report, second.report);

    let silent = ServiceError::BadCredential;
    assert_eq!(silent.classify().code, silent.classify().code);
    assert_eq!(silent.classify().severity, silent.classify().severity);
}

#[test]
fn report_messages() {
    assert_eq!(
        reqwest(HttpClientErrorKind::Timeout).report_message(),
        Some("HTTP client timed-out".to_string())
    );
    assert_eq!(
        redis(RedisErrorKind::Io).report_message(),
        Some("Redis client encountered network io failure".to_string())
    );
    assert_eq!(
        ServiceError::MiddlewareNotSet("cookie".to_string()).report_message(),
        Some("Service middleware was not properly setup".to_string())
    );
    assert!(ServiceError::ClientTimeout.report_message().is_none());
}

#[test]
fn rendered_messages() {
    assert_eq!(
        ServiceError::MiddlewareNotSet("config".to_string()).message(),
        "config middleware not set"
    );
    assert_eq!(ServiceError::ConfigNotSet.message(), "app config not set");
    assert_eq!(ServiceError::BadCredential.message(), "bad credential");
    assert_eq!(
        ServiceError::ValidateFailure {
            field: "name".to_string(),
            reason: "too short".to_string(),
        }
        .message(),
        "failed to validate request data: name reason: too short"
    );
    assert_eq!(
        ServiceError::TryFrom {
            field: "age".to_string(),
            from: "abc".to_string(),
            into: "u32".to_string(),
            expect: "a number".to_string(),
        }
        .message(),
        "failed to convert from 'age' value 'abc' into 'u32' expecting a number"
    );
    assert_eq!(
        ServiceError::EmptySliceIndex(42).message(),
        "empty value at index: 42"
    );
    assert_eq!(
        ServiceError::Rejected("no access".to_string()).message(),
        "rejected reason: no access"
    );
    assert_eq!(
        ServiceError::Reqwest(HttpClientErrorKind::Body, "rendered body error".to_string())
            .message(),
        "rendered body error"
    );
    assert_eq!(ServiceError::QueueDeclareTimeout.message(), "amqp queue declare timeout");
}

#[test]
fn status_conversion() {
    let status = ServiceError::BadCredential.to_status();
    assert_eq!(status.code, Code::Unauthenticated);
    assert_eq!(status.message, "bad credential");

    let status = ServiceError::ClientTimeout.to_status();
    assert_eq!(status.code, Code::DeadlineExceeded);
    assert_eq!(status.message, "client response timeout");
}
