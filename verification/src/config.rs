//! Resolution of the three configuration values the service reads at
//! startup. Each value comes from an optional environment input; a
//! missing input is silently replaced by its default. Once resolved, the
//! configuration is immutable for the lifetime of the service.

use vstd::prelude::*;

verus! {

/// The value a configuration entry resolves to: the given input when one
/// is present, the default otherwise.
pub open spec fn resolved(input: Option<String>, default: Seq<char>) -> Seq<char> {
    match input {
        Some(s) => s@,
        None => default,
    }
}

/// Default application name, used when `APP_NAME` is unset.
pub open spec fn default_name() -> Seq<char> {
    "rust-sample"@
}

/// Default listen port, used when `APP_PORT` is unset.
pub open spec fn default_port() -> Seq<char> {
    "8088"@
}

/// Default data directory, used when `APP_DATA` is unset: empty.
pub open spec fn default_data() -> Seq<char> {
    Seq::<char>::empty()
}

/// Returns the input value if present, the given default otherwise.
pub fn resolve_or(input: Option<String>, default: &str) -> (r: String)
    ensures
        r@ == resolved(input, default@),
{
    match input {
        Some(s) => s,
        None => String::from_str(default),
    }
}

/// The three configuration values of the service, resolved once at
/// startup and immutable afterwards. The data directory is accepted and
/// reported but never used for any I/O.
pub struct AppConfig {
    pub name: String,
    pub port: String,
    pub data: String,
}

impl AppConfig {
    /// Resolves the configuration from the optional environment inputs,
    /// substituting each default where the input is absent. No
    /// validation of the port or name format is performed.
    pub fn from_env_values(
        name: Option<String>,
        port: Option<String>,
        data: Option<String>,
    ) -> (c: AppConfig)
        ensures
            c.name@ == resolved(name, default_name()),
            c.port@ == resolved(port, default_port()),
            c.data@ == resolved(data, default_data()),
    {
        proof {
            reveal_strlit("");
            assert(""@ =~= Seq::<char>::empty());
        }
        AppConfig {
            name: resolve_or(name, "rust-sample"),
            port: resolve_or(port, "8088"),
            data: resolve_or(data, ""),
        }
    }
}

/// The single informational line the service reports at startup, with
/// the three resolved values.
pub open spec fn startup_line_of(c: AppConfig) -> Seq<char> {
    "Started rust app '"@ + c.name@ + "' on port '"@ + c.port@ + "' with data dir of '"@
        + c.data@ + "'"@
}

/// Builds the startup line reporting the three resolved values.
pub fn startup_line(c: &AppConfig) -> (r: String)
    ensures
        r@ == startup_line_of(*c),
{
    let mut s = String::from_str("Started rust app '");
    s.append(c.name.as_str());
    s.append("' on port '");
    s.append(c.port.as_str());
    s.append("' with data dir of '");
    s.append(c.data.as_str());
    s.append("'");
    proof {
        assert(s@ =~= startup_line_of(*c));
    }
    s
}

/// The loopback address the listener binds to: `127.0.0.1:<port>`.
pub open spec fn bind_address_of(port: Seq<char>) -> Seq<char> {
    "127.0.0.1:"@ + port
}

/// Builds the loopback bind address `127.0.0.1:<port>` for the
/// resolved port.
pub fn bind_address(c: &AppConfig) -> (r: String)
    ensures
        r@ == bind_address_of(c.port@),
{
    let mut s = String::from_str("127.0.0.1:");
    s.append(c.port.as_str());
    s
}

} // verus!
