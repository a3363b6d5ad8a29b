use vstd::prelude::*;
use vstd::string::StringExecFns;
use std::time::Duration;
use crate::text::{decimal, push_decimal, str_eq};

verus! {

/// The deployment environment, which picks the configuration file.
#[derive(Clone, Copy, Debug, PartialEq, Eq, Structural)]
pub enum Environment {
    Local,
    Production,
}

pub open spec fn environment_name(e: Environment) -> Seq<char> {
    match e {
        Environment::Local => "local"@,
        Environment::Production => "production"@,
    }
}

pub open spec fn unknown_environment_message(s: Seq<char>) -> Seq<char> {
    "Unknown environment: "@ + s
}

impl Environment {
    pub fn as_str(&self) -> (r: &'static str)
        ensures
            r@ == environment_name(*self),
    {
        match self {
            Environment::Local => "local",
            Environment::Production => "production",
        }
    }
}

impl Environment {
    /// Reads an environment name; any other text is refused with a message
    /// that names it.
    pub fn parse(value: &str) -> (r: Result<Environment, String>)
        ensures
            r matches Ok(e) ==> environment_name(e) == value@,
            r is Err ==> value@ != "local"@ && value@ != "production"@,
            r matches Err(m) ==> m@ == unknown_environment_message(value@),
    {
        if str_eq(value, "local") {
            Ok(Environment::Local)
        } else if str_eq(value, "production") {
            Ok(Environment::Production)
        } else {
            let mut m = String::from_str("Unknown environment: ");
            m.append(value);
            Err(m)
        }
    }
}

/// Where the read API listens.
#[derive(Clone, Debug)]
pub struct ApplicationSetting {
    pub host: String,
    pub port: u16,
    pub base_url: String,
}

impl ApplicationSetting {
    /// The listening address, `host:port`.
    pub fn url(&self) -> (r: String)
        ensures
            r@ == self.host@ + ":"@ + decimal(self.port as nat),
    {
        let mut u = self.host.clone();
        u.append(":");
        push_decimal(&mut u, self.port as u64);
        u
    }
}

/// The provider's base URL and the request timeout.
#[derive(Clone, Debug)]
pub struct GeckoClientSetting {
    pub url: String,
    pub timeout_milliseconds: u64,
}

/// The duration of a whole number of milliseconds.
pub uninterp spec fn millis_duration(ms: u64) -> Duration;

/// Relies on `Duration::from_millis`, which depends on its argument alone.
#[verifier::external_body]
fn duration_from_millis(ms: u64) -> (r: Duration)
    ensures
        r == millis_duration(ms),
{
    Duration::from_millis(ms)
}

impl GeckoClientSetting {
    /// The timeout applied to every provider request.
    pub fn timeout(&self) -> (r: Duration)
        ensures
            r == millis_duration(self.timeout_milliseconds),
    {
        duration_from_millis(self.timeout_milliseconds)
    }
}

/// The public base URL under which the read API is reached.
#[derive(Clone, Debug)]
pub struct ApplicationBaseUrl(pub String);

/// The query of the read-by-symbol endpoint.
#[derive(Clone, Debug)]
pub struct PathData {
    pub symbol: String,
}

} // verus!
