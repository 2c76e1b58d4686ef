//! The closed error taxonomy of the service and its pure classification into
//! a protocol status code, a reporting severity, and the message forwarded to
//! the external error-reporting sink.
//!
//! Failures coming from outside subsystems (the HTTP client, the key-value
//! store, the message queue, task signalling) are carried as a plain kind plus
//! the rendered text of the original error, so classification is a pure
//! function of the value.

use vstd::prelude::*;
use vstd::string::StringExecFns;

use crate::text::dec_spec;
use crate::text::u64_to_string;

verus! {

/// Protocol status codes for RPC responses.
#[derive(Clone, Copy, Debug, PartialEq, Eq, Structural)]
pub enum Code {
    Cancelled,
    Unknown,
    InvalidArgument,
    DeadlineExceeded,
    PermissionDenied,
    ResourceExhausted,
    FailedPrecondition,
    Internal,
    Unavailable,
    DataLoss,
    Unauthenticated,
}

/// How a classified failure is reported to the error-reporting sink:
/// not at all (expected conditions), as a warning, as an error, or as a
/// fatal capture with full context.
#[derive(Clone, Copy, Debug, PartialEq, Eq, Structural)]
pub enum Severity {
    Silent,
    Warning,
    Error,
    Fatal,
}

/// Sub-cause of a downstream HTTP client failure.
#[derive(Clone, Copy, Debug, PartialEq, Eq, Structural)]
pub enum HttpClientErrorKind {
    Body,
    Builder,
    Connect,
    Decode,
    Redirect,
    Timeout,
    Request,
    Status,
    Other,
}

/// Sub-cause of a key-value store failure.
#[derive(Clone, Copy, Debug, PartialEq, Eq, Structural)]
pub enum RedisErrorKind {
    Timeout,
    ClusterError,
    ConnectionDropped,
    ConnectionRefused,
    Io,
    Other,
}

/// Sub-cause of a messaging-queue protocol failure.
#[derive(Clone, Copy, Debug, PartialEq, Eq, Structural)]
pub enum AmqpErrorKind {
    ChannelsLimitReached,
    InvalidProtocolVersion,
    InvalidChannel,
    InvalidChannelState,
    InvalidConnectionState,
    Io,
    Parsing,
    Protocol,
    Serialisation,
    Other,
}

/// How a background task ended when joining it failed.
#[derive(Clone, Copy, Debug, PartialEq, Eq, Structural)]
pub enum TaskJoinKind {
    Panic,
    Cancelled,
    Other,
}

/// The closed set of failures the service can encounter. Variants carrying a
/// `String` hold the rendered text of the original error for the
/// human-readable message.
#[derive(Debug, Clone)]
pub enum ServiceError {
    Reqwest(HttpClientErrorKind, String),
    Redis(RedisErrorKind, String),
    MiddlewareNotSet(String),
    ConfigNotSet,
    RcHasReference,
    ParseMessage(String),
    ValidateFailure { field: String, reason: String },
    ParseInt(String),
    ParseUtf8(String),
    BadCredential,
    Rejected(String),
    Uuid(String),
    TryFrom { field: String, from: String, into: String, expect: String },
    EmptySliceIndex(usize),
    LapinAMQP(AmqpErrorKind, String),
    SendError,
    OneshotRecvError(String),
    TaskJoinError(TaskJoinKind, String),
    SemaphoreAquire(String),
    QueueDeclareTimeout,
    QueueBindTimeout,
    QueueBasicConsumeTimeout,
    QueueBasicAckTimeout,
    ClientTimeout,
    CookieParse(String),
    HttpHeader(String),
    HttpHeaderNotFound,
    MsgPackDecodeError(String),
    MsgPackEncodeError(String),
}

/// The status code a failure classifies to.
pub open spec fn code_spec(e: ServiceError) -> Code {
    match e {
        ServiceError::Reqwest(k, _) => match k {
            HttpClientErrorKind::Body => Code::InvalidArgument,
            HttpClientErrorKind::Builder => Code::Internal,
            HttpClientErrorKind::Connect => Code::Unavailable,
            HttpClientErrorKind::Decode => Code::FailedPrecondition,
            HttpClientErrorKind::Redirect => Code::Internal,
            HttpClientErrorKind::Timeout => Code::DeadlineExceeded,
            HttpClientErrorKind::Request => Code::FailedPrecondition,
            HttpClientErrorKind::Status => Code::FailedPrecondition,
            HttpClientErrorKind::Other => Code::Internal,
        },
        ServiceError::Redis(k, _) => match k {
            RedisErrorKind::Timeout => Code::FailedPrecondition,
            RedisErrorKind::ClusterError => Code::Unavailable,
            RedisErrorKind::ConnectionDropped => Code::Unavailable,
            RedisErrorKind::ConnectionRefused => Code::Unavailable,
            RedisErrorKind::Io => Code::Internal,
            RedisErrorKind::Other => Code::Unavailable,
        },
        ServiceError::MiddlewareNotSet(_) => Code::Internal,
        ServiceError::ConfigNotSet => Code::Internal,
        ServiceError::RcHasReference => Code::Internal,
        ServiceError::ParseMessage(_) => Code::Internal,
        ServiceError::ValidateFailure { .. } => Code::InvalidArgument,
        ServiceError::ParseInt(_) => Code::InvalidArgument,
        ServiceError::ParseUtf8(_) => Code::InvalidArgument,
        ServiceError::BadCredential => Code::Unauthenticated,
        ServiceError::Rejected(_) => Code::PermissionDenied,
        ServiceError::Uuid(_) => Code::InvalidArgument,
        ServiceError::TryFrom { .. } => Code::DataLoss,
        ServiceError::EmptySliceIndex(_) => Code::FailedPrecondition,
        ServiceError::LapinAMQP(k, _) => match k {
            AmqpErrorKind::ChannelsLimitReached => Code::ResourceExhausted,
            AmqpErrorKind::InvalidProtocolVersion => Code::Internal,
            AmqpErrorKind::InvalidChannel => Code::FailedPrecondition,
            AmqpErrorKind::InvalidChannelState => Code::Unavailable,
            AmqpErrorKind::InvalidConnectionState => Code::Unavailable,
            AmqpErrorKind::Io => Code::Internal,
            AmqpErrorKind::Parsing => Code::FailedPrecondition,
            AmqpErrorKind::Protocol => Code::Internal,
            AmqpErrorKind::Serialisation => Code::FailedPrecondition,
            AmqpErrorKind::Other => Code::Internal,
        },
        ServiceError::SendError => Code::FailedPrecondition,
        ServiceError::OneshotRecvError(_) => Code::FailedPrecondition,
        ServiceError::TaskJoinError(k, _) => match k {
            TaskJoinKind::Panic => Code::Internal,
            TaskJoinKind::Cancelled => Code::Cancelled,
            TaskJoinKind::Other => Code::Internal,
        },
        ServiceError::SemaphoreAquire(_) => Code::FailedPrecondition,
        ServiceError::QueueDeclareTimeout => Code::DeadlineExceeded,
        ServiceError::QueueBindTimeout => Code::DeadlineExceeded,
        ServiceError::QueueBasicConsumeTimeout => Code::DeadlineExceeded,
        ServiceError::QueueBasicAckTimeout => Code::DeadlineExceeded,
        ServiceError::ClientTimeout => Code::DeadlineExceeded,
        ServiceError::CookieParse(_) => Code::FailedPrecondition,
        ServiceError::HttpHeader(_) => Code::FailedPrecondition,
        ServiceError::HttpHeaderNotFound => Code::Internal,
        ServiceError::MsgPackDecodeError(_) => Code::FailedPrecondition,
        ServiceError::MsgPackEncodeError(_) => Code::FailedPrecondition,
    }
}

/// The reporting severity a failure classifies to. `Silent` marks expected
/// conditions that produce no reporting noise.
pub open spec fn severity_spec(e: ServiceError) -> Severity {
    match e {
        ServiceError::Reqwest(k, _) => match k {
            HttpClientErrorKind::Body => Severity::Warning,
            HttpClientErrorKind::Builder => Severity::Fatal,
            HttpClientErrorKind::Connect => Severity::Error,
            HttpClientErrorKind::Decode => Severity::Warning,
            HttpClientErrorKind::Redirect => Severity::Warning,
            HttpClientErrorKind::Timeout => Severity::Warning,
            HttpClientErrorKind::Request => Severity::Error,
            HttpClientErrorKind::Status => Severity::Warning,
            HttpClientErrorKind::Other => Severity::Error,
        },
        ServiceError::Redis(k, _) => match k {
            RedisErrorKind::Timeout => Severity::Warning,
            RedisErrorKind::ClusterError => Severity::Error,
            RedisErrorKind::ConnectionDropped => Severity::Warning,
            RedisErrorKind::ConnectionRefused => Severity::Error,
            RedisErrorKind::Io => Severity::Fatal,
            RedisErrorKind::Other => Severity::Warning,
        },
        ServiceError::MiddlewareNotSet(_) => Severity::Fatal,
        ServiceError::ConfigNotSet => Severity::Fatal,
        ServiceError::RcHasReference => Severity::Fatal,
        ServiceError::ParseMessage(_) => Severity::Error,
        ServiceError::ValidateFailure { .. } => Severity::Silent,
        ServiceError::ParseInt(_) => Severity::Warning,
        ServiceError::ParseUtf8(_) => Severity::Warning,
        ServiceError::BadCredential => Severity::Silent,
        ServiceError::Rejected(_) => Severity::Warning,
        ServiceError::Uuid(_) => Severity::Warning,
        ServiceError::TryFrom { .. } => Severity::Silent,
        ServiceError::EmptySliceIndex(_) => Severity::Warning,
        ServiceError::LapinAMQP(k, _) => match k {
            AmqpErrorKind::ChannelsLimitReached => Severity::Warning,
            AmqpErrorKind::InvalidProtocolVersion => Severity::Fatal,
            AmqpErrorKind::InvalidChannel => Severity::Error,
            AmqpErrorKind::InvalidChannelState => Severity::Error,
            AmqpErrorKind::InvalidConnectionState => Severity::Error,
            AmqpErrorKind::Io => Severity::Fatal,
            AmqpErrorKind::Parsing => Severity::Error,
            AmqpErrorKind::Protocol => Severity::Fatal,
            AmqpErrorKind::Serialisation => Severity::Error,
            AmqpErrorKind::Other => Severity::Fatal,
        },
        ServiceError::SendError => Severity::Warning,
        ServiceError::OneshotRecvError(_) => Severity::Warning,
        ServiceError::TaskJoinError(k, _) => match k {
            TaskJoinKind::Panic => Severity::Fatal,
            TaskJoinKind::Cancelled => Severity::Silent,
            TaskJoinKind::Other => Severity::Warning,
        },
        ServiceError::SemaphoreAquire(_) => Severity::Warning,
        ServiceError::QueueDeclareTimeout => Severity::Silent,
        ServiceError::QueueBindTimeout => Severity::Silent,
        ServiceError::QueueBasicConsumeTimeout => Severity::Silent,
        ServiceError::QueueBasicAckTimeout => Severity::Silent,
        ServiceError::ClientTimeout => Severity::Silent,
        ServiceError::CookieParse(_) => Severity::Warning,
        ServiceError::HttpHeader(_) => Severity::Warning,
        ServiceError::HttpHeaderNotFound => Severity::Warning,
        ServiceError::MsgPackDecodeError(_) => Severity::Warning,
        ServiceError::MsgPackEncodeError(_) => Severity::Warning,
    }
}

/// The message forwarded to the external reporting sink, or `None` for the
/// expected conditions that are never reported.
pub open spec fn report_spec(e: ServiceError) -> Option<Seq<char>> {
    match e {
        ServiceError::Reqwest(k, _) => match k {
            HttpClientErrorKind::Body => Some("HTTP client failed to parse payload body"@),
            HttpClientErrorKind::Builder => Some("HTTP client failed to be initialized"@),
            HttpClientErrorKind::Connect => Some("HTTP client failed to initiate connection"@),
            HttpClientErrorKind::Decode => Some("HTTP client failed to decode payload instance"@),
            HttpClientErrorKind::Redirect => Some("HTTP client failed to perform redirection"@),
            HttpClientErrorKind::Timeout => Some("HTTP client timed-out"@),
            HttpClientErrorKind::Request => Some("HTTP client threw internal exception"@),
            HttpClientErrorKind::Status => Some("HTTP client received bad protocol status"@),
            HttpClientErrorKind::Other => Some("HTTP client returned general failure"@),
        },
        ServiceError::Redis(k, _) => match k {
            RedisErrorKind::Timeout => Some("Redis client timed-out"@),
            RedisErrorKind::ClusterError => Some(
                "Redis client returned cluster related exception"@,
            ),
            RedisErrorKind::ConnectionDropped => Some(
                "Redis client unexpectedly dropped connection"@,
            ),
            RedisErrorKind::ConnectionRefused => Some(
                "Redis client encountered connection refusal"@,
            ),
            RedisErrorKind::Io => Some("Redis client encountered network io failure"@),
            RedisErrorKind::Other => Some("Redis client returned internal exception"@),
        },
        ServiceError::MiddlewareNotSet(_) => Some("Service middleware was not properly setup"@),
        ServiceError::ConfigNotSet => Some("Service configuration was not properly setup"@),
        ServiceError::RcHasReference => Some(
            "Reference counted memory returned exception when attempting downgrade to non-reference counted memory"@,
        ),
        ServiceError::ParseMessage(_) => Some(
            "Service encountered failure while attempting to parse error response message"@,
        ),
        ServiceError::ValidateFailure { .. } => None,
        ServiceError::ParseInt(_) => Some(
            "Service encountered failure while attempting to parse input to the integer"@,
        ),
        ServiceError::ParseUtf8(_) => Some(
            "Service encountered failure while attempting to parse input to the UTF-8 encoded string"@,
        ),
        ServiceError::BadCredential => None,
        ServiceError::Rejected(_) => Some(
            "Incoming gRPC request attempted to access non-authorized resource"@,
        ),
        ServiceError::Uuid(_) => Some(
            "Service encountered failure while attempting to parse input to UUID"@,
        ),
        ServiceError::TryFrom { .. } => None,
        ServiceError::EmptySliceIndex(_) => Some(
            "Service encountered failure while attempting to access non-existing slice index"@,
        ),
        ServiceError::LapinAMQP(k, _) => match k {
            AmqpErrorKind::ChannelsLimitReached => Some(
                "AMQP client triggered channel limit exception"@,
            ),
            AmqpErrorKind::InvalidProtocolVersion => Some(
                "AMQP client triggered invalid protocol version exception"@,
            ),
            AmqpErrorKind::InvalidChannel => Some(
                "AMQP client triggered invalid channel exception"@,
            ),
            AmqpErrorKind::InvalidChannelState => Some(
                "AMQP client triggered invalid channel state exception"@,
            ),
            AmqpErrorKind::InvalidConnectionState => Some(
                "AMQP client triggered invalid connection state exception"@,
            ),
            AmqpErrorKind::Io => Some("AMQP client triggered network IO exception"@),
            AmqpErrorKind::Parsing => Some("AMQP client triggered payload parsing exception"@),
            AmqpErrorKind::Protocol => Some("AMQP client triggered protocol exception"@),
            AmqpErrorKind::Serialisation => Some(
                "AMQP client triggered serialisation exception"@,
            ),
            AmqpErrorKind::Other => Some("AMQP client triggered unknown exception"@),
        },
        ServiceError::SendError => Some(
            "Service encountered failure while attempting to send signal across asynchrous task"@,
        ),
        ServiceError::OneshotRecvError(_) => Some(
            "Service encountered failure while attempting to receive signal from oneshot channel"@,
        ),
        ServiceError::TaskJoinError(k, _) => match k {
            TaskJoinKind::Panic => Some(
                "Service encountered failure from unhandled exception inside asynchronous task"@,
            ),
            TaskJoinKind::Cancelled => None,
            TaskJoinKind::Other => Some(
                "Service encountered failure while computing asynchronous task"@,
            ),
        },
        ServiceError::SemaphoreAquire(_) => Some(
            "Service encountered failure while attempting to acquire semaphore permit"@,
        ),
        ServiceError::QueueDeclareTimeout => None,
        ServiceError::QueueBindTimeout => None,
        ServiceError::QueueBasicConsumeTimeout => None,
        ServiceError::QueueBasicAckTimeout => None,
        ServiceError::ClientTimeout => None,
        ServiceError::CookieParse(_) => Some(
            "Service encountered failure while attempting to parse http cookie"@,
        ),
        ServiceError::HttpHeader(_) => Some(
            "Service encountered failure while attempting to parse http header"@,
        ),
        ServiceError::HttpHeaderNotFound => Some(
            "Service encountered failure while attempting to access request header"@,
        ),
        ServiceError::MsgPackDecodeError(_) => Some(
            "Service encountered failure while attempting to decode msgpack packet"@,
        ),
        ServiceError::MsgPackEncodeError(_) => Some(
            "Service encountered failure while attempting to encode msgpack packet"@,
        ),
    }
}

/// The result of classifying a failure: the protocol status code, the
/// reporting severity, and the message handed to the reporting sink (absent
/// exactly for the silent, expected conditions).
pub struct Classification {
    pub code: Code,
    pub severity: Severity,
    pub report: Option<String>,
}

impl ServiceError {
    /// Classification is a pure mapping of the error value; it never mutates
    /// the error.
    pub fn classify(&self) -> (r: Classification)
        ensures
            r.code == code_spec(*self),
            r.severity == severity_spec(*self),
            r.report.deep_view() == report_spec(*self),
    {
        let code = self.get_code();
        let severity = self.severity();
        let report = self.report_message();
        Classification { code, severity, report }
    }

    /// The protocol status code for this failure.
    pub fn get_code(&self) -> (c: Code)
        ensures
            c == code_spec(*self),
    {
        match self {
            ServiceError::Reqwest(k, _) => match k {
                HttpClientErrorKind::Body => Code::InvalidArgument,
                HttpClientErrorKind::Builder => Code::Internal,
                HttpClientErrorKind::Connect => Code::Unavailable,
                HttpClientErrorKind::Decode => Code::FailedPrecondition,
                HttpClientErrorKind::Redirect => Code::Internal,
                HttpClientErrorKind::Timeout => Code::DeadlineExceeded,
                HttpClientErrorKind::Request => Code::FailedPrecondition,
                HttpClientErrorKind::Status => Code::FailedPrecondition,
                HttpClientErrorKind::Other => Code::Internal,
            },
            ServiceError::Redis(k, _) => match k {
                RedisErrorKind::Timeout => Code::FailedPrecondition,
                RedisErrorKind::ClusterError => Code::Unavailable,
                RedisErrorKind::ConnectionDropped => Code::Unavailable,
                RedisErrorKind::ConnectionRefused => Code::Unavailable,
                RedisErrorKind::Io => Code::Internal,
                RedisErrorKind::Other => Code::Unavailable,
            },
            ServiceError::MiddlewareNotSet(_) => Code::Internal,
            ServiceError::ConfigNotSet => Code::Internal,
            ServiceError::RcHasReference => Code::Internal,
            ServiceError::ParseMessage(_) => Code::Internal,
            ServiceError::ValidateFailure { .. } => Code::InvalidArgument,
            ServiceError::ParseInt(_) => Code::InvalidArgument,
            ServiceError::ParseUtf8(_) => Code::InvalidArgument,
            ServiceError::BadCredential => Code::Unauthenticated,
            ServiceError::Rejected(_) => Code::PermissionDenied,
            ServiceError::Uuid(_) => Code::InvalidArgument,
            ServiceError::TryFrom { .. } => Code::DataLoss,
            ServiceError::EmptySliceIndex(_) => Code::FailedPrecondition,
            ServiceError::LapinAMQP(k, _) => match k {
                AmqpErrorKind::ChannelsLimitReached => Code::ResourceExhausted,
                AmqpErrorKind::InvalidProtocolVersion => Code::Internal,
                AmqpErrorKind::InvalidChannel => Code::FailedPrecondition,
                AmqpErrorKind::InvalidChannelState => Code::Unavailable,
                AmqpErrorKind::InvalidConnectionState => Code::Unavailable,
                AmqpErrorKind::Io => Code::Internal,
                AmqpErrorKind::Parsing => Code::FailedPrecondition,
                AmqpErrorKind::Protocol => Code::Internal,
                AmqpErrorKind::Serialisation => Code::FailedPrecondition,
                AmqpErrorKind::Other => Code::Internal,
            },
            ServiceError::SendError => Code::FailedPrecondition,
            ServiceError::OneshotRecvError(_) => Code::FailedPrecondition,
            ServiceError::TaskJoinError(k, _) => match k {
                TaskJoinKind::Panic => Code::Internal,
                TaskJoinKind::Cancelled => Code::Cancelled,
                TaskJoinKind::Other => Code::Internal,
            },
            ServiceError::SemaphoreAquire(_) => Code::FailedPrecondition,
            ServiceError::QueueDeclareTimeout => Code::DeadlineExceeded,
            ServiceError::QueueBindTimeout => Code::DeadlineExceeded,
            ServiceError::QueueBasicConsumeTimeout => Code::DeadlineExceeded,
            ServiceError::QueueBasicAckTimeout => Code::DeadlineExceeded,
            ServiceError::ClientTimeout => Code::DeadlineExceeded,
            ServiceError::CookieParse(_) => Code::FailedPrecondition,
            ServiceError::HttpHeader(_) => Code::FailedPrecondition,
            ServiceError::HttpHeaderNotFound => Code::Internal,
            ServiceError::MsgPackDecodeError(_) => Code::FailedPrecondition,
            ServiceError::MsgPackEncodeError(_) => Code::FailedPrecondition,
        }
    }

    /// The reporting severity for this failure.
    pub fn severity(&self) -> (s: Severity)
        ensures
            s == severity_spec(*self),
    {
        match self {
            ServiceError::Reqwest(k, _) => match k {
                HttpClientErrorKind::Body => Severity::Warning,
                HttpClientErrorKind::Builder => Severity::Fatal,
                HttpClientErrorKind::Connect => Severity::Error,
                HttpClientErrorKind::Decode => Severity::Warning,
                HttpClientErrorKind::Redirect => Severity::Warning,
                HttpClientErrorKind::Timeout => Severity::Warning,
                HttpClientErrorKind::Request => Severity::Error,
                HttpClientErrorKind::Status => Severity::Warning,
                HttpClientErrorKind::Other => Severity::Error,
            },
            ServiceError::Redis(k, _) => match k {
                RedisErrorKind::Timeout => Severity::Warning,
                RedisErrorKind::ClusterError => Severity::Error,
                RedisErrorKind::ConnectionDropped => Severity::Warning,
                RedisErrorKind::ConnectionRefused => Severity::Error,
                RedisErrorKind::Io => Severity::Fatal,
                RedisErrorKind::Other => Severity::Warning,
            },
            ServiceError::MiddlewareNotSet(_) => Severity::Fatal,
            ServiceError::ConfigNotSet => Severity::Fatal,
            ServiceError::RcHasReference => Severity::Fatal,
            ServiceError::ParseMessage(_) => Severity::Error,
            ServiceError::ValidateFailure { .. } => Severity::Silent,
            ServiceError::ParseInt(_) => Severity::Warning,
            ServiceError::ParseUtf8(_) => Severity::Warning,
            ServiceError::BadCredential => Severity::Silent,
            ServiceError::Rejected(_) => Severity::Warning,
            ServiceError::Uuid(_) => Severity::Warning,
            ServiceError::TryFrom { .. } => Severity::Silent,
            ServiceError::EmptySliceIndex(_) => Severity::Warning,
            ServiceError::LapinAMQP(k, _) => match k {
                AmqpErrorKind::ChannelsLimitReached => Severity::Warning,
                AmqpErrorKind::InvalidProtocolVersion => Severity::Fatal,
                AmqpErrorKind::InvalidChannel => Severity::Error,
                AmqpErrorKind::InvalidChannelState => Severity::Error,
                AmqpErrorKind::InvalidConnectionState => Severity::Error,
                AmqpErrorKind::Io => Severity::Fatal,
                AmqpErrorKind::Parsing => Severity::Error,
                AmqpErrorKind::Protocol => Severity::Fatal,
                AmqpErrorKind::Serialisation => Severity::Error,
                AmqpErrorKind::Other => Severity::Fatal,
            },
            ServiceError::SendError => Severity::Warning,
            ServiceError::OneshotRecvError(_) => Severity::Warning,
            ServiceError::TaskJoinError(k, _) => match k {
                TaskJoinKind::Panic => Severity::Fatal,
                TaskJoinKind::Cancelled => Severity::Silent,
                TaskJoinKind::Other => Severity::Warning,
            },
            ServiceError::SemaphoreAquire(_) => Severity::Warning,
            ServiceError::QueueDeclareTimeout => Severity::Silent,
            ServiceError::QueueBindTimeout => Severity::Silent,
            ServiceError::QueueBasicConsumeTimeout => Severity::Silent,
            ServiceError::QueueBasicAckTimeout => Severity::Silent,
            ServiceError::ClientTimeout => Severity::Silent,
            ServiceError::CookieParse(_) => Severity::Warning,
            ServiceError::HttpHeader(_) => Severity::Warning,
            ServiceError::HttpHeaderNotFound => Severity::Warning,
            ServiceError::MsgPackDecodeError(_) => Severity::Warning,
            ServiceError::MsgPackEncodeError(_) => Severity::Warning,
        }
    }

    /// The message for the reporting sink, absent for silent conditions.
    pub fn report_message(&self) -> (m: Option<String>)
        ensures
            m.deep_view() == report_spec(*self),
    {
        match self {
            ServiceError::Reqwest(k, _) => match k {
                HttpClientErrorKind::Body => Some(
                    "HTTP client failed to parse payload body".to_owned(),
                ),
                HttpClientErrorKind::Builder => Some(
                    "HTTP client failed to be initialized".to_owned(),
                ),
                HttpClientErrorKind::Connect => Some(
                    "HTTP client failed to initiate connection".to_owned(),
                ),
                HttpClientErrorKind::Decode => Some(
                    "HTTP client failed to decode payload instance".to_owned(),
                ),
                HttpClientErrorKind::Redirect => Some(
                    "HTTP client failed to perform redirection".to_owned(),
                ),
                HttpClientErrorKind::Timeout => Some("HTTP client timed-out".to_owned()),
                HttpClientErrorKind::Request => Some(
                    "HTTP client threw internal exception".to_owned(),
                ),
                HttpClientErrorKind::Status => Some(
                    "HTTP client received bad protocol status".to_owned(),
                ),
                HttpClientErrorKind::Other => Some(
                    "HTTP client returned general failure".to_owned(),
                ),
            },
            ServiceError::Redis(k, _) => match k {
                RedisErrorKind::Timeout => Some("Redis client timed-out".to_owned()),
                RedisErrorKind::ClusterError => Some(
                    "Redis client returned cluster related exception".to_owned(),
                ),
                RedisErrorKind::ConnectionDropped => Some(
                    "Redis client unexpectedly dropped connection".to_owned(),
                ),
                RedisErrorKind::ConnectionRefused => Some(
                    "Redis client encountered connection refusal".to_owned(),
                ),
                RedisErrorKind::Io => Some(
                    "Redis client encountered network io failure".to_owned(),
                ),
                RedisErrorKind::Other => Some(
                    "Redis client returned internal exception".to_owned(),
                ),
            },
            ServiceError::MiddlewareNotSet(_) => Some(
                "Service middleware was not properly setup".to_owned(),
            ),
            ServiceError::ConfigNotSet => Some(
                "Service configuration was not properly setup".to_owned(),
            ),
            ServiceError::RcHasReference => Some(
                "Reference counted memory returned exception when attempting downgrade to non-reference counted memory".to_owned(),
            ),
            ServiceError::ParseMessage(_) => Some(
                "Service encountered failure while attempting to parse error response message".to_owned(),
            ),
            ServiceError::ValidateFailure { .. } => None,
            ServiceError::ParseInt(_) => Some(
                "Service encountered failure while attempting to parse input to the integer".to_owned(),
            ),
            ServiceError::ParseUtf8(_) => Some(
                "Service encountered failure while attempting to parse input to the UTF-8 encoded string".to_owned(),
            ),
            ServiceError::BadCredential => None,
            ServiceError::Rejected(_) => Some(
                "Incoming gRPC request attempted to access non-authorized resource".to_owned(),
            ),
            ServiceError::Uuid(_) => Some(
                "Service encountered failure while attempting to parse input to UUID".to_owned(),
            ),
            ServiceError::TryFrom { .. } => None,
            ServiceError::EmptySliceIndex(_) => Some(
                "Service encountered failure while attempting to access non-existing slice index".to_owned(),
            ),
            ServiceError::LapinAMQP(k, _) => match k {
                AmqpErrorKind::ChannelsLimitReached => Some(
                    "AMQP client triggered channel limit exception".to_owned(),
                ),
                AmqpErrorKind::InvalidProtocolVersion => Some(
                    "AMQP client triggered invalid protocol version exception".to_owned(),
                ),
                AmqpErrorKind::InvalidChannel => Some(
                    "AMQP client triggered invalid channel exception".to_owned(),
                ),
                AmqpErrorKind::InvalidChannelState => Some(
                    "AMQP client triggered invalid channel state exception".to_owned(),
                ),
                AmqpErrorKind::InvalidConnectionState => Some(
                    "AMQP client triggered invalid connection state exception".to_owned(),
                ),
                AmqpErrorKind::Io => Some("AMQP client triggered network IO exception".to_owned()),
                AmqpErrorKind::Parsing => Some(
                    "AMQP client triggered payload parsing exception".to_owned(),
                ),
                AmqpErrorKind::Protocol => Some(
                    "AMQP client triggered protocol exception".to_owned(),
                ),
                AmqpErrorKind::Serialisation => Some(
                    "AMQP client triggered serialisation exception".to_owned(),
                ),
                AmqpErrorKind::Other => Some(
                    "AMQP client triggered unknown exception".to_owned(),
                ),
            },
            ServiceError::SendError => Some(
                "Service encountered failure while attempting to send signal across asynchrous task".to_owned(),
            ),
            ServiceError::OneshotRecvError(_) => Some(
                "Service encountered failure while attempting to receive signal from oneshot channel".to_owned(),
            ),
            ServiceError::TaskJoinError(k, _) => match k {
                TaskJoinKind::Panic => Some(
                    "Service encountered failure from unhandled exception inside asynchronous task".to_owned(),
                ),
                TaskJoinKind::Cancelled => None,
                TaskJoinKind::Other => Some(
                    "Service encountered failure while computing asynchronous task".to_owned(),
                ),
            },
            ServiceError::SemaphoreAquire(_) => Some(
                "Service encountered failure while attempting to acquire semaphore permit".to_owned(),
            ),
            ServiceError::QueueDeclareTimeout => None,
            ServiceError::QueueBindTimeout => None,
            ServiceError::QueueBasicConsumeTimeout => None,
            ServiceError::QueueBasicAckTimeout => None,
            ServiceError::ClientTimeout => None,
            ServiceError::CookieParse(_) => Some(
                "Service encountered failure while attempting to parse http cookie".to_owned(),
            ),
            ServiceError::HttpHeader(_) => Some(
                "Service encountered failure while attempting to parse http header".to_owned(),
            ),
            ServiceError::HttpHeaderNotFound => Some(
                "Service encountered failure while attempting to access request header".to_owned(),
            ),
            ServiceError::MsgPackDecodeError(_) => Some(
                "Service encountered failure while attempting to decode msgpack packet".to_owned(),
            ),
            ServiceError::MsgPackEncodeError(_) => Some(
                "Service encountered failure while attempting to encode msgpack packet".to_owned(),
            ),
        }
    }
}

/// The human-readable message of a failure, derived from the error's textual
/// form. Variants wrapping an outside failure render as the text carried from
/// that failure; the others render a fixed description of their fields.
pub open spec fn message_spec(e: ServiceError) -> Seq<char> {
    match e {
        ServiceError::Reqwest(_, d) => d@,
        ServiceError::Redis(_, d) => d@,
        ServiceError::MiddlewareNotSet(m) => m@ + " middleware not set"@,
        ServiceError::ConfigNotSet => "app config not set"@,
        ServiceError::RcHasReference => "Rc still has more than 0 reference(s). This is a bug"@,
        ServiceError::ParseMessage(d) => "error: failed to parse error message: "@ + d@,
        ServiceError::ValidateFailure { field, reason } => "failed to validate request data: "@
            + field@ + " reason: "@ + reason@,
        ServiceError::ParseInt(d) => d@,
        ServiceError::ParseUtf8(d) => d@,
        ServiceError::BadCredential => "bad credential"@,
        ServiceError::Rejected(r) => "rejected reason: "@ + r@,
        ServiceError::Uuid(d) => d@,
        ServiceError::TryFrom { field, from, into, expect } => "failed to convert from '"@
            + field@ + "' value '"@ + from@ + "' into '"@ + into@ + "' expecting "@ + expect@,
        ServiceError::EmptySliceIndex(i) => "empty value at index: "@ + dec_spec(i as nat),
        ServiceError::LapinAMQP(_, d) => d@,
        ServiceError::SendError => "failed to send a value"@,
        ServiceError::OneshotRecvError(d) => d@,
        ServiceError::TaskJoinError(_, d) => d@,
        ServiceError::SemaphoreAquire(d) => d@,
        ServiceError::QueueDeclareTimeout => "amqp queue declare timeout"@,
        ServiceError::QueueBindTimeout => "amqp queue bind timeout"@,
        ServiceError::QueueBasicConsumeTimeout => "amqp queue basic consume timeout"@,
        ServiceError::QueueBasicAckTimeout => "amqp queue basic ack timeout"@,
        ServiceError::ClientTimeout => "client response timeout"@,
        ServiceError::CookieParse(d) => d@,
        ServiceError::HttpHeader(d) => d@,
        ServiceError::HttpHeaderNotFound => "http header not found"@,
        ServiceError::MsgPackDecodeError(d) => d@,
        ServiceError::MsgPackEncodeError(d) => d@,
    }
}

impl ServiceError {
    /// Renders the human-readable message of this failure.
    pub fn message(&self) -> (m: String)
        ensures
            m@ == message_spec(*self),
    {
        match self {
            ServiceError::Reqwest(_, d) => d.clone(),
            ServiceError::Redis(_, d) => d.clone(),
            ServiceError::MiddlewareNotSet(name) => {
                let mut m = name.clone();
                m.append(" middleware not set");
                m
            },
            ServiceError::ConfigNotSet => "app config not set".to_owned(),
            ServiceError::RcHasReference => "Rc still has more than 0 reference(s). This is a bug"
                .to_owned(),
            ServiceError::ParseMessage(d) => {
                let mut m = "error: failed to parse error message: ".to_owned();
                m.append(d.as_str());
                m
            },
            ServiceError::ValidateFailure { field, reason } => {
                let mut m = "failed to validate request data: ".to_owned();
                m.append(field.as_str());
                m.append(" reason: ");
                m.append(reason.as_str());
                m
            },
            ServiceError::ParseInt(d) => d.clone(),
            ServiceError::ParseUtf8(d) => d.clone(),
            ServiceError::BadCredential => "bad credential".to_owned(),
            ServiceError::Rejected(r) => {
                let mut m = "rejected reason: ".to_owned();
                m.append(r.as_str());
                m
            },
            ServiceError::Uuid(d) => d.clone(),
            ServiceError::TryFrom { field, from, into, expect } => {
                let mut m = "failed to convert from '".to_owned();
                m.append(field.as_str());
                m.append("' value '");
                m.append(from.as_str());
                m.append("' into '");
                m.append(into.as_str());
                m.append("' expecting ");
                m.append(expect.as_str());
                m
            },
            ServiceError::EmptySliceIndex(i) => {
                let mut m = "empty value at index: ".to_owned();
                let rendered = u64_to_string(*i as u64);
                m.append(rendered.as_str());
                m
            },
            ServiceError::LapinAMQP(_, d) => d.clone(),
            ServiceError::SendError => "failed to send a value".to_owned(),
            ServiceError::OneshotRecvError(d) => d.clone(),
            ServiceError::TaskJoinError(_, d) => d.clone(),
            ServiceError::SemaphoreAquire(d) => d.clone(),
            ServiceError::QueueDeclareTimeout => "amqp queue declare timeout".to_owned(),
            ServiceError::QueueBindTimeout => "amqp queue bind timeout".to_owned(),
            ServiceError::QueueBasicConsumeTimeout => "amqp queue basic consume timeout"
                .to_owned(),
            ServiceError::QueueBasicAckTimeout => "amqp queue basic ack timeout".to_owned(),
            ServiceError::ClientTimeout => "client response timeout".to_owned(),
            ServiceError::CookieParse(d) => d.clone(),
            ServiceError::HttpHeader(d) => d.clone(),
            ServiceError::HttpHeaderNotFound => "http header not found".to_owned(),
            ServiceError::MsgPackDecodeError(d) => d.clone(),
            ServiceError::MsgPackEncodeError(d) => d.clone(),
        }
    }

    /// The wire-level status for this failure: its status code paired with
    /// its human-readable message. Only the outermost boundary performs this
    /// conversion.
    pub fn to_status(&self) -> (s: Status)
        ensures
            s.code == code_spec(*self),
            s.message@ == message_spec(*self),
    {
        Status { code: self.get_code(), message: self.message() }
    }
}

/// A wire-level response status: a protocol status code and the
/// human-readable message derived from the failure's textual form.
#[derive(Debug, Clone)]
pub struct Status {
    pub code: Code,
    pub message: String,
}

/// Classification is pure: the same error value always classifies to the same
/// status code, severity and report.
pub proof fn lemma_classification_deterministic(e1: ServiceError, e2: ServiceError)
    requires
        e1 == e2,
    ensures
        code_spec(e1) == code_spec(e2),
        severity_spec(e1) == severity_spec(e2),
        report_spec(e1) == report_spec(e2),
{
}

} // verus!
