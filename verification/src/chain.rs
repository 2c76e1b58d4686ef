//! The decorator chain: the layers that wrap a request handler (tracing,
//! error reporting, session resolution), the per-request context they
//! populate, and the guard that rejects unauthenticated requests.
//!
//! A layer builds a middleware value holding exactly one inner handler; the
//! registration order of layers at startup is the execution order on each
//! request. The async plumbing that drives a middleware lives outside the
//! library; the decisions each middleware takes live here.

use vstd::prelude::*;

use crate::error::Code;
use crate::error::ServiceError;
use crate::error::Status;
use crate::session::CookieSessionContainer;

verus! {

/// The per-request attachment bag, as the pipeline reads it: whether the
/// store-adapter handle was attached at startup, and the session slot.
/// An absent slot means session resolution never ran (a configuration
/// error); a present-but-empty container means it ran and found no
/// credential.
#[derive(Debug, Clone)]
pub struct RequestContext {
    pub store_attached: bool,
    pub session: Option<CookieSessionContainer>,
}

/// Guarantees the session slot holds a container: a request that reaches the
/// handlers without a resolved credential carries an empty container rather
/// than an absent one. An already-populated slot is left untouched, so
/// exactly one resolution attempt writes to the slot per request.
pub fn insert_empty_extension(ctx: &mut RequestContext)
    ensures
        final(ctx).store_attached == old(ctx).store_attached,
        final(ctx).session is Some,
        old(ctx).session is Some ==> final(ctx).session == old(ctx).session,
        old(ctx).session is None ==> (final(ctx).session matches Some(c) && c.0 is None),
{
    if ctx.session.is_none() {
        ctx.session = Some(CookieSessionContainer(None));
    }
}

/// Guard for handlers that require a resolved identity. A populated session
/// passes the request through unchanged; a container that ran but found no
/// credential is rejected as unauthenticated; an absent container means the
/// session decorator never ran, which is a configuration error, never a
/// silent pass.
pub fn cookie_session_interceptor(ctx: RequestContext) -> (r: Result<RequestContext, Status>)
    ensures
        ctx.session matches Some(c) && c.0 is Some ==> (r matches Ok(out) && out == ctx),
        ctx.session matches Some(c) && c.0 is None ==> (r matches Err(s) && s.code
            == Code::Unauthenticated && s.message@ == "bad credential"@),
        ctx.session is None ==> (r matches Err(s) && s.code == Code::Internal && s.message@
            == "cookie"@ + " middleware not set"@),
{
    match &ctx.session {
        Some(container) => {
            if container.0.is_some() {
                Ok(ctx)
            } else {
                Err(ServiceError::BadCredential.to_status())
            }
        },
        None => Err(ServiceError::MiddlewareNotSet("cookie".to_owned()).to_status()),
    }
}

/// Layer that wraps a handler with request tracing: a structured span
/// carrying method, route and client metadata, recording the response status
/// on completion. Tracing never fails the request.
#[derive(Debug, Clone)]
pub struct TracingLayer;

/// The tracing decorator around one inner handler.
#[derive(Debug, Clone)]
pub struct TracingMiddleware<S> {
    pub inner: S,
}

impl TracingLayer {
    /// Wraps `inner` with the tracing decorator.
    pub fn layer<S>(&self, inner: S) -> (svc: TracingMiddleware<S>)
        ensures
            svc.inner == inner,
    {
        TracingMiddleware { inner }
    }
}

/// Layer that wraps a handler with session resolution from the request's
/// cookie or `Session` header.
#[derive(Debug, Clone)]
pub struct CookieSessionLayer;

/// The session-resolution decorator around one inner handler.
#[derive(Debug, Clone)]
pub struct CookieMiddleware<S> {
    pub inner: S,
}

impl CookieSessionLayer {
    /// Wraps `inner` with the session-resolution decorator.
    pub fn layer<S>(&self, inner: S) -> (svc: CookieMiddleware<S>)
        ensures
            svc.inner == inner,
    {
        CookieMiddleware { inner }
    }
}

/// Layer configuration for the error-reporting decorator: whether the
/// reporting event id is emitted as a response header, and whether server
/// errors are captured at all. The reporting hub handle itself is owned by
/// the unverified boundary.
#[derive(Debug, Clone, Copy)]
pub struct SentrySessionLayer {
    pub emit_header: bool,
    pub capture_server_errors: bool,
}

/// A helper construct that can be used to reconfigure and build the
/// error-reporting layer.
#[derive(Debug, Clone)]
pub struct SentrySessionLayerBuilder {
    pub middleware: SentrySessionLayer,
}

impl SentrySessionLayerBuilder {
    /// Finishes the building and returns the layer.
    pub fn finish(self) -> (l: SentrySessionLayer)
        ensures
            l == self.middleware,
    {
        self.middleware
    }

    /// If configured the reporting event id is attached to a response
    /// header.
    pub fn emit_header(self, val: bool) -> (b: Self)
        ensures
            b.middleware.emit_header == val,
            b.middleware.capture_server_errors == self.middleware.capture_server_errors,
    {
        let mut b = self;
        b.middleware.emit_header = val;
        b
    }

    /// Enables or disables error reporting. The default is to report all
    /// errors.
    pub fn capture_server_errors(self, val: bool) -> (b: Self)
        ensures
            b.middleware.capture_server_errors == val,
            b.middleware.emit_header == self.middleware.emit_header,
    {
        let mut b = self;
        b.middleware.capture_server_errors = val;
        b
    }
}

/// The error-reporting decorator around one inner handler: it opens an
/// isolated reporting scope per request and, on handler failure, classifies
/// and reports the error without altering it.
#[derive(Debug, Clone)]
pub struct SentrySessionTracker<S> {
    pub inner: S,
    pub session: SentrySessionLayer,
}

impl SentrySessionLayer {
    /// Creates a new error-reporting layer: errors are captured, no header
    /// is emitted.
    pub fn new() -> (l: Self)
        ensures
            !l.emit_header,
            l.capture_server_errors,
    {
        SentrySessionLayer { emit_header: false, capture_server_errors: true }
    }

    /// Creates a new layer builder.
    pub fn builder() -> (b: SentrySessionLayerBuilder)
        ensures
            !b.middleware.emit_header,
            b.middleware.capture_server_errors,
    {
        SentrySessionLayer::new().into_builder()
    }

    /// Converts the layer into a builder.
    pub fn into_builder(self) -> (b: SentrySessionLayerBuilder)
        ensures
            b.middleware == self,
    {
        SentrySessionLayerBuilder { middleware: self }
    }

    /// Whether server errors are captured and reported.
    pub fn get_capture_server_errors(&self) -> (r: bool)
        ensures
            r == self.capture_server_errors,
    {
        self.capture_server_errors
    }

    /// Whether the reporting event id is emitted as a response header.
    pub fn get_emit_header(&self) -> (r: bool)
        ensures
            r == self.emit_header,
    {
        self.emit_header
    }

    /// Wraps `inner` with the error-reporting decorator.
    pub fn layer<S>(&self, inner: S) -> (svc: SentrySessionTracker<S>)
        ensures
            svc.inner == inner,
            svc.session == *self,
    {
        SentrySessionTracker { inner, session: self.clone() }
    }
}

/// The target recorded for a request by tracing and error reporting: the
/// path, followed by `?query` when the request carries a query.
pub fn http_target(path: &str, query: Option<&str>) -> (t: String)
    ensures
        query matches Some(q) ==> t@ == path@ + "?"@ + q@,
        query is None ==> t@ == path@,
{
    let mut t = path.to_owned();
    if let Some(q) = query {
        t.append("?");
        t.append(q);
    }
    t
}

/// The textual value recorded for an optional request header (user agent,
/// forwarded client address): empty when the header is absent or its value
/// is not valid text. The argument is `None` for an absent header and `Err`
/// when its value could not be read as text.
pub fn header_text_or_empty(h: Option<Result<String, String>>) -> (t: String)
    ensures
        h matches Some(Ok(v)) ==> t == v,
        h is None ==> t@ == Seq::<char>::empty(),
        h matches Some(Err(_)) ==> t@ == Seq::<char>::empty(),
{
    match h {
        Some(Ok(v)) => v,
        _ => String::new(),
    }
}

/// The remote client address attached to a reporting scope: recorded only
/// when personally-identifying data is explicitly enabled and the
/// forwarding header carries valid text; redacted otherwise.
pub fn remote_address_entry(with_pii: bool, forwarded_for: Option<Result<String, String>>) -> (r:
    Option<String>)
    ensures
        !with_pii ==> r is None,
        with_pii ==> match forwarded_for {
            Some(Ok(v)) => r == Some(v),
            Some(Err(_)) => r is None,
            None => r is None,
        },
{
    if with_pii {
        match forwarded_for {
            Some(Ok(v)) => Some(v),
            _ => None,
        }
    } else {
        None
    }
}

impl Default for SentrySessionLayer {
    fn default() -> (l: Self)
        ensures
            !l.emit_header,
            l.capture_server_errors,
    {
        SentrySessionLayer::new()
    }
}

} // verus!
