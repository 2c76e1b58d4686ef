//! Session-credential resolution: finding the credential a request presents
//! (a cookie named `session`, or a `Session` header), the atomic
//! get-and-refresh-expiry command sent to the external key-value store for
//! it, and the interpretation of the store's answer.

use vstd::prelude::*;

use crate::error::RedisErrorKind;
use crate::error::ServiceError;
use crate::text::split_cookie_header;
use crate::text::split_cookies;

verus! {

#[verifier::external_type_specification]
#[verifier::external_body]
pub struct ExUuid(uuid::Uuid);

/// Relies on `uuid::Uuid` being a plain 128-bit value (`Copy`): cloning it
/// yields the same identifier.
pub assume_specification[ <uuid::Uuid as core::clone::Clone>::clone ](u: &uuid::Uuid) -> (r:
    uuid::Uuid)
    ensures
        r == *u,
;

/// Whether a string parses as a UUID.
pub uninterp spec fn uuid_parses(s: Seq<char>) -> bool;

/// Relies on `uuid::Uuid::parse_str`: whether a string parses as a UUID, and
/// the identifier it parses to, depend on the string alone; the call never
/// panics.
#[verifier::external_body]
fn parse_session_uuid(s: &str) -> (r: Result<uuid::Uuid, String>)
    ensures
        r is Ok <==> uuid_parses(s@),
{
    match uuid::Uuid::parse_str(s) {
        Ok(u) => Ok(u),
        Err(e) => Err(format!("{}", e)),
    }
}

/// The name/value pair a cookie string parses to, or the text of the parse
/// error it raises.
pub uninterp spec fn cookie_pair_of(s: Seq<char>) -> Result<(Seq<char>, Seq<char>), Seq<char>>;

/// Relies on `cookie::Cookie::parse`: parsing a cookie string into its
/// name/value pair (or a parse error) depends on the string alone and never
/// panics; no percent-decoding is performed.
#[verifier::external_body]
fn parse_cookie_pair(raw: &str) -> (r: Result<(String, String), String>)
    ensures
        r matches Ok(p) ==> (cookie_pair_of(raw@) matches Ok(q) && p.0@ == q.0 && p.1@ == q.1),
        r matches Err(d) ==> (cookie_pair_of(raw@) matches Err(q) && d@ == q),
{
    match cookie::Cookie::parse(raw) {
        Ok(c) => Ok((c.name().to_string(), c.value().to_string())),
        Err(e) => Err(format!("{}", e)),
    }
}

/// A resolved identity: the opaque session id the client presented and the
/// stable user id the store holds against it.
#[derive(Debug, Clone)]
pub struct CookieSession {
    pub sid: String,
    pub uid: uuid::Uuid,
}

/// Presence of this container in a request context records that session
/// resolution ran; `None` inside it records that it ran but found no
/// credential. Those two absences classify to distinct error kinds.
#[derive(Debug, Clone)]
pub struct CookieSessionContainer(pub Option<CookieSession>);

/// The rolling session-expiry window, in seconds: 24 hours.
pub const SESSION_TTL_SECONDS: u64 = 24 * 60 * 60;

/// One atomic get-and-refresh-expiry operation against the external
/// key-value store, as plain data: the key to read and the expiry window to
/// set on it.
#[derive(Debug, Clone)]
pub struct StoreCommand {
    pub key: String,
    pub ttl_seconds: u64,
}

/// Builds the get-and-refresh command for a presented credential. Every
/// lookup refreshes the expiry to exactly the configured rolling window.
pub fn refresh_command(sid: String) -> (c: StoreCommand)
    ensures
        c.key == sid,
        c.ttl_seconds == SESSION_TTL_SECONDS,
{
    StoreCommand { key: sid, ttl_seconds: SESSION_TTL_SECONDS }
}

/// Walks the parsed cookie strings front to back: the first parse error
/// aborts the walk; otherwise the value of the last cookie named `session`
/// wins, starting from `acc`.
pub open spec fn jar_scan(parts: Seq<Seq<char>>, acc: Option<Seq<char>>) -> Result<
    Option<Seq<char>>,
    Seq<char>,
>
    decreases parts.len(),
{
    if parts.len() == 0 {
        Ok(acc)
    } else {
        match cookie_pair_of(parts[0]) {
            Ok(p) => jar_scan(
                parts.drop_first(),
                if p.0 == "session"@ {
                    Some(p.1)
                } else {
                    acc
                },
            ),
            Err(d) => Err(d),
        }
    }
}

fn scan_jar(parts: &Vec<String>) -> (r: Result<Option<String>, String>)
    ensures
        r matches Ok(v) ==> (jar_scan(parts.deep_view(), None) matches Ok(w) && v.deep_view()
            == w),
        r matches Err(d) ==> (jar_scan(parts.deep_view(), None) matches Err(w) && d@ == w),
{
    let ghost all = parts.deep_view();
    let session_name: String = "session".to_owned();
    let mut acc: Option<String> = None;
    let mut i: usize = 0;
    proof {
        assert(all.skip(0) =~~= all);
    }
    while i < parts.len()
        invariant
            i <= parts.len(),
            all == parts.deep_view(),
            session_name@ == "session"@,
            jar_scan(all, None) == jar_scan(all.skip(i as int), acc.deep_view()),
        decreases parts.len() - i,
    {
        proof {
            assert(all.skip(i as int).len() > 0);
            assert(all.skip(i as int)[0] == all[i as int]);
            assert(all.skip(i as int).drop_first() =~~= all.skip(i + 1));
        }
        match parse_cookie_pair(parts[i].as_str()) {
            Err(d) => {
                return Err(d);
            },
            Ok(pair) => {
                let (name, value) = pair;
                if name == session_name {
                    acc = Some(value);
                }
            },
        }
        i = i + 1;
    }
    proof {
        assert(all.skip(parts.len() as int) =~~= Seq::<Seq<char>>::empty());
    }
    Ok(acc)
}

/// No credential reaches resolution through the cookie header: it is absent,
/// or it parses and holds no cookie named `session`.
pub open spec fn no_cookie_credential(cookie_header: Option<Result<String, String>>) -> bool {
    match cookie_header {
        None => true,
        Some(Ok(h)) => jar_scan(split_cookies(h@), None) matches Ok(v) && v is None,
        Some(Err(_)) => false,
    }
}

/// Decides what session resolution does for one request, from the raw
/// `cookie` header, the raw `Session` header, and whether the store adapter
/// was attached to the request context. Header arguments are `None` when the
/// header is absent and `Err` (with the rendered error) when its value is
/// not valid text.
///
/// The cookie named `session` is consulted before the `Session` header. A
/// request presenting no credential at all proceeds unauthenticated
/// (`Ok(None)`); a presented credential yields the get-and-refresh command
/// for it; a malformed header fails the request; and a missing store adapter
/// is a configuration error, never a silent pass-through.
pub fn credential_decision(
    cookie_header: Option<Result<String, String>>,
    session_header: Option<Result<String, String>>,
    store_attached: bool,
) -> (r: Result<Option<StoreCommand>, ServiceError>)
    ensures
        !store_attached ==> (r matches Err(e) && e matches ServiceError::MiddlewareNotSet(m)
            && m@ == "config"@),
        cookie_header matches Some(Err(d)) ==> store_attached ==> (r matches Err(e)
            && e matches ServiceError::HttpHeader(x) && x == d),
        cookie_header matches Some(Ok(h)) ==> jar_scan(
            split_cookies(h@),
            None,
        ) matches Err(d) ==> store_attached ==> (r matches Err(e)
            && e matches ServiceError::CookieParse(x) && x@ == d),
        cookie_header matches Some(Ok(h)) ==> jar_scan(
            split_cookies(h@),
            None,
        ) matches Ok(v) ==> v matches Some(sid) ==> store_attached ==> (r matches Ok(c)
            && c matches Some(cmd) && cmd.key@ == sid
            && cmd.ttl_seconds == SESSION_TTL_SECONDS),
        store_attached && no_cookie_credential(cookie_header) ==> match session_header {
            None => r matches Ok(c) && c is None,
            Some(Ok(sid)) => r matches Ok(c) && c matches Some(cmd) && cmd.key == sid
                && cmd.ttl_seconds == SESSION_TTL_SECONDS,
            Some(Err(d)) => r matches Err(e) && e matches ServiceError::HttpHeader(x) && x == d,
        },
{
    if !store_attached {
        return Err(ServiceError::MiddlewareNotSet("config".to_owned()));
    }
    match cookie_header {
        Some(Err(d)) => {
            return Err(ServiceError::HttpHeader(d));
        },
        Some(Ok(h)) => {
            let parts = split_cookie_header(h.as_str());
            match scan_jar(&parts) {
                Err(d) => {
                    return Err(ServiceError::CookieParse(d));
                },
                Ok(Some(sid)) => {
                    return Ok(Some(refresh_command(sid)));
                },
                Ok(None) => {},
            }
        },
        None => {},
    }
    match session_header {
        None => Ok(None),
        Some(Ok(sid)) => Ok(Some(refresh_command(sid))),
        Some(Err(d)) => Err(ServiceError::HttpHeader(d)),
    }
}

/// The store's answer to one get-and-refresh command: the stored value for
/// the key, no value (the credential is unknown), or a store failure.
#[derive(Debug, Clone)]
pub enum StoreReply {
    Found(String),
    Missing,
    Failed(RedisErrorKind, String),
}

/// Interprets the store's answer for the credential `sid`. A well-formed but
/// unknown credential is the unauthenticated outcome (`BadCredential`), never
/// a parse error; a stored value that fails identity parsing is the distinct
/// parse-error outcome, never coerced to `BadCredential`; a store failure is
/// carried through as the corresponding store error.
pub fn resolution_outcome(sid: String, reply: StoreReply) -> (r: Result<
    CookieSessionContainer,
    ServiceError,
>)
    ensures
        reply matches StoreReply::Found(u) && uuid_parses(u@) ==> (r matches Ok(c)
            && c.0 matches Some(s) && s.sid == sid),
        reply matches StoreReply::Found(u) && !uuid_parses(u@) ==> (r matches Err(e)
            && e matches ServiceError::Uuid(_)),
        reply matches StoreReply::Missing ==> (r matches Err(e)
            && e matches ServiceError::BadCredential),
        reply matches StoreReply::Failed(k, d) ==> (r matches Err(e)
            && e matches ServiceError::Redis(k2, d2) && k2 == k && d2 == d),
{
    match reply {
        StoreReply::Found(stored) => match parse_session_uuid(stored.as_str()) {
            Ok(uid) => Ok(CookieSessionContainer(Some(CookieSession { sid, uid }))),
            Err(detail) => Err(ServiceError::Uuid(detail)),
        },
        StoreReply::Missing => Err(ServiceError::BadCredential),
        StoreReply::Failed(kind, detail) => Err(ServiceError::Redis(kind, detail)),
    }
}

} // verus!
