//! The immutable process configuration: every environment-style value the
//! server needs, assembled once at startup and passed by reference to the
//! components that need it. Absence of any required value is a
//! startup-fatal condition.

use vstd::prelude::*;
use vstd::string::StringExecFns;

use crate::error::ServiceError;

verus! {

/// Keep-alive window for accepted connections, in seconds.
pub const KEEP_ALIVE_TIMEOUT_SECS: u64 = 60;

/// Grace window for the in-flight telemetry flush at shutdown, in seconds.
pub const SHUTDOWN_GRACE_SECS: u64 = 10;

/// The configuration values the server needs: the address and port to bind,
/// the queue broker's address and admin credentials, the key-value store's
/// URL and the error-reporting endpoint URL.
#[derive(Debug, Clone)]
pub struct AppConfig {
    pub app_url: String,
    pub app_port: String,
    pub amqp_address: String,
    pub amqp_admin_username: String,
    pub amqp_admin_password: String,
    pub redis_url: String,
    pub sentry_url: String,
}

/// Assembles the configuration from the environment-style values. Every
/// value is required: the configuration exists exactly when all of them are
/// present, and a missing one is the configuration error.
pub fn build_config(
    app_url: Option<String>,
    app_port: Option<String>,
    amqp_address: Option<String>,
    amqp_admin_username: Option<String>,
    amqp_admin_password: Option<String>,
    redis_url: Option<String>,
    sentry_url: Option<String>,
) -> (r: Result<AppConfig, ServiceError>)
    ensures
        r is Ok <==> (app_url is Some && app_port is Some && amqp_address is Some
            && amqp_admin_username is Some && amqp_admin_password is Some && redis_url is Some
            && sentry_url is Some),
        r matches Ok(c) ==> (Some(c.app_url) == app_url && Some(c.app_port) == app_port && Some(
            c.amqp_address,
        ) == amqp_address && Some(c.amqp_admin_username) == amqp_admin_username && Some(
            c.amqp_admin_password,
        ) == amqp_admin_password && Some(c.redis_url) == redis_url && Some(c.sentry_url)
            == sentry_url),
        r matches Err(e) ==> e matches ServiceError::ConfigNotSet,
{
    match (
        app_url,
        app_port,
        amqp_address,
        amqp_admin_username,
        amqp_admin_password,
        redis_url,
        sentry_url,
    ) {
        (Some(u), Some(p), Some(a), Some(n), Some(w), Some(r), Some(s)) => Ok(
            AppConfig {
                app_url: u,
                app_port: p,
                amqp_address: a,
                amqp_admin_username: n,
                amqp_admin_password: w,
                redis_url: r,
                sentry_url: s,
            },
        ),
        _ => Err(ServiceError::ConfigNotSet),
    }
}

impl AppConfig {
    /// The socket address the server binds: the bind address and port
    /// joined with a colon.
    pub fn bind_address(&self) -> (a: String)
        ensures
            a@ == self.app_url@ + ":"@ + self.app_port@,
    {
        let mut a = self.app_url.clone();
        a.append(":");
        a.append(self.app_port.as_str());
        a
    }
}

} // verus!
