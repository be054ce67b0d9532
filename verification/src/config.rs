//! The server's configuration, made from the values of its environment variables.
use vstd::prelude::*;
use crate::errors::concat3;
use crate::ids::{uuid_string, uuid_text};
use crate::patterns::opt_view;
use crate::text::str_eq;

verus! {

/// The value of an environment variable, as the process found it.
pub enum EnvVar {
    /// The variable is not set.
    Absent,
    /// The variable is set to something that is not Unicode.
    NotUnicode,
    /// The variable's value.
    Value(String),
}

/// Why the configuration could not be read: a required variable is not set,
/// or is not Unicode (as `std::env::VarError` tells them apart).
#[derive(Debug, Clone, Copy, PartialEq, Eq)]
pub enum ConfigError {
    NotPresent,
    NotUnicode,
}

/// The values of the environment variables that the configuration is read from.
pub struct EnvValues {
    pub database_url: EnvVar,
    pub redis_url: EnvVar,
    pub tv_api_url: EnvVar,
    pub jwt_secret: EnvVar,
    pub port: EnvVar,
    pub host: EnvVar,
    pub enable_tls: EnvVar,
    pub tls_cert_path: EnvVar,
    pub tls_key_path: EnvVar,
    pub enable_rate_limiting: EnvVar,
}

/// The server's configuration.
pub struct Config {
    pub database_url: String,
    pub redis_url: String,
    pub tv_api_url: String,
    pub jwt_secret: String,
    pub port: u16,
    pub host: String,
    pub enable_tls: bool,
    pub tls_cert_path: Option<String>,
    pub tls_key_path: Option<String>,
    pub enable_rate_limiting: bool,
}

/// The text of a variable, when it is set to Unicode text.
pub open spec fn env_text(v: EnvVar) -> Option<Seq<char>> {
    match v {
        EnvVar::Value(s) => Some(s@),
        _ => None,
    }
}

/// What `bool::from_str` gives: `true` and `false` only.
pub open spec fn parse_bool_spec(s: Seq<char>) -> Option<bool> {
    if s == "true"@ {
        Some(true)
    } else if s == "false"@ {
        Some(false)
    } else {
        None
    }
}

/// A boolean setting: its value when it reads as `true` or `false`, else `default`.
pub open spec fn flag_spec(v: EnvVar, default: bool) -> bool {
    match env_text(v) {
        Some(s) => match parse_bool_spec(s) {
            Some(b) => b,
            None => default,
        },
        None => default,
    }
}

/// An optional path: its value when set and not empty.
pub open spec fn path_spec(v: EnvVar) -> Option<Seq<char>> {
    match env_text(v) {
        Some(s) => if s.len() > 0 {
            Some(s)
        } else {
            None
        },
        None => None,
    }
}

/// The numeric value of a run of ASCII digits.
pub open spec fn digits_value(s: Seq<char>) -> nat
    decreases s.len(),
{
    if s.len() == 0 {
        0
    } else {
        digits_value(s.drop_last()) * 10 + ((s.last() as u32) - ('0' as u32)) as nat
    }
}

/// Every character of `s` is an ASCII digit.
pub open spec fn all_digits(s: Seq<char>) -> bool {
    forall|i: int| 0 <= i < s.len() ==> '0' <= #[trigger] s[i] && s[i] <= '9'
}

/// What `u16::from_str` gives: an optional `+`, then one or more ASCII digits
/// whose value is at most 65535.
pub open spec fn parse_u16_spec(s: Seq<char>) -> Option<u16> {
    let d = if s.len() > 0 && s[0] == '+' {
        s.drop_first()
    } else {
        s
    };
    if d.len() > 0 && all_digits(d) && digits_value(d) <= 65535 {
        Some(digits_value(d) as u16)
    } else {
        None
    }
}

/// Reads a decimal `u16` the way `u16::from_str` does.
pub fn parse_u16(s: &str) -> (r: Option<u16>)
    ensures
        r == parse_u16_spec(s@),
{
    let v = crate::text::chars_of(s);
    let mut i: usize = 0;
    if v.len() > 0 && v[0] == '+' {
        i = 1;
    }
    let ghost d = if s@.len() > 0 && s@[0] == '+' {
        s@.drop_first()
    } else {
        s@
    };
    assert(d == s@.skip(i as int));
    if i == v.len() {
        return None;
    }
    let start = i;
    let mut value: u32 = 0;
    while i < v.len()
        invariant
            v@ == s@,
            start <= i <= v@.len(),
            d == s@.skip(start as int),
            d == (if s@.len() > 0 && s@[0] == '+' {
                s@.drop_first()
            } else {
                s@
            }),
            all_digits(s@.subrange(start as int, i as int)),
            value as nat == digits_value(s@.subrange(start as int, i as int)),
            value <= 65535,
        decreases v.len() - i,
    {
        let c = v[i];
        proof {
            assert(s@.subrange(start as int, i + 1).drop_last() =~= s@.subrange(
                start as int,
                i as int,
            ));
            assert(s@.subrange(start as int, i + 1).last() == c);
        }
        if !('0' <= c && c <= '9') {
            proof {
                assert(d[i - start] == c);
                assert(!all_digits(d));
            }
            return None;
        }
        let digit: u32 = (c as u32) - ('0' as u32);
        let next: u32 = value * 10 + digit;
        if next > 65535 {
            proof {
                assert(d.subrange(0, (i + 1 - start) as int) =~= s@.subrange(start as int, i + 1));
                if all_digits(d) {
                    lemma_digits_value_grows(d, (i + 1 - start) as int);
                }
            }
            return None;
        }
        value = next;
        i = i + 1;
    }
    assert(s@.subrange(start as int, v@.len() as int) =~= d);
    Some(value as u16)
}

proof fn lemma_digits_value_grows(d: Seq<char>, k: int)
    requires
        0 <= k <= d.len(),
        all_digits(d),
    ensures
        digits_value(d) >= digits_value(d.subrange(0, k)),
    decreases d.len() - k,
{
    if k < d.len() {
        lemma_digits_value_grows(d, k + 1);
        assert(d.subrange(0, k + 1).drop_last() =~= d.subrange(0, k));
    } else {
        assert(d.subrange(0, k) =~= d);
    }
}

/// The port the server listens on: `PORT`, 8080 unless set as Unicode text.
pub open spec fn port_text(v: EnvVar) -> Seq<char> {
    match env_text(v) {
        Some(s) => s,
        None => "8080"@,
    }
}

/// The first required variable, in the order they are read, that is not set to
/// Unicode text, with the reason.
pub open spec fn config_error(env: EnvValues) -> Option<ConfigError> {
    if env.database_url is Absent {
        Some(ConfigError::NotPresent)
    } else if env.database_url is NotUnicode {
        Some(ConfigError::NotUnicode)
    } else if env.redis_url is Absent {
        Some(ConfigError::NotPresent)
    } else if env.redis_url is NotUnicode {
        Some(ConfigError::NotUnicode)
    } else if env.tv_api_url is Absent {
        Some(ConfigError::NotPresent)
    } else if env.tv_api_url is NotUnicode {
        Some(ConfigError::NotUnicode)
    } else if env.jwt_secret is Absent {
        Some(ConfigError::NotPresent)
    } else if env.jwt_secret is NotUnicode {
        Some(ConfigError::NotUnicode)
    } else {
        None
    }
}

fn env_flag(v: &EnvVar, default: bool) -> (b: bool)
    ensures
        b == flag_spec(*v, default),
{
    match v {
        EnvVar::Value(s) => {
            if str_eq(s.as_str(), "true") {
                true
            } else if str_eq(s.as_str(), "false") {
                false
            } else {
                default
            }
        },
        _ => default,
    }
}

fn env_path(v: &EnvVar) -> (p: Option<String>)
    ensures
        opt_view(p) == path_spec(*v),
{
    match v {
        EnvVar::Value(s) => if s.as_str().is_empty() {
            None
        } else {
            Some(s.clone())
        },
        _ => None,
    }
}

fn required(v: &EnvVar) -> (r: Result<String, ConfigError>)
    ensures
        match *v {
            EnvVar::Absent => r == Err::<String, ConfigError>(ConfigError::NotPresent),
            EnvVar::NotUnicode => r == Err::<String, ConfigError>(ConfigError::NotUnicode),
            EnvVar::Value(s) => r matches Ok(t) && t@ == s@,
        },
{
    match v {
        EnvVar::Absent => Err(ConfigError::NotPresent),
        EnvVar::NotUnicode => Err(ConfigError::NotUnicode),
        EnvVar::Value(s) => Ok(s.clone()),
    }
}

impl Config {
    /// The configuration read from the environment's values: TLS off and rate
    /// limiting on unless set to `true`/`false`, empty certificate paths taken
    /// as unset, port 8080 and host `0.0.0.0` unless set. The database, Redis
    /// and identity-service URLs and the JWT secret are required. A port that is
    /// set but is not a number stops the server, so it is left out here.
    pub fn from_values(env: &EnvValues) -> (r: Result<Config, ConfigError>)
        requires
            config_error(*env) is None ==> parse_u16_spec(port_text(env.port)) is Some,
        ensures
            match config_error(*env) {
                Some(e) => r == Err::<Config, ConfigError>(e),
                None => r matches Ok(c) && c.database_url@ == env_text(env.database_url).unwrap()
                    && c.redis_url@ == env_text(env.redis_url).unwrap() && c.tv_api_url@
                    == env_text(env.tv_api_url).unwrap() && c.jwt_secret@ == env_text(
                    env.jwt_secret,
                ).unwrap() && c.port == parse_u16_spec(port_text(env.port)).unwrap() && c.host@
                    == match env_text(env.host) {
                    Some(h) => h,
                    None => "0.0.0.0"@,
                } && c.enable_tls == flag_spec(env.enable_tls, false) && opt_view(
                    c.tls_cert_path,
                ) == path_spec(env.tls_cert_path) && opt_view(c.tls_key_path) == path_spec(
                    env.tls_key_path,
                ) && c.enable_rate_limiting == flag_spec(env.enable_rate_limiting, true),
            },
    {
        let enable_tls = env_flag(&env.enable_tls, false);
        let tls_cert_path = env_path(&env.tls_cert_path);
        let tls_key_path = env_path(&env.tls_key_path);
        let enable_rate_limiting = env_flag(&env.enable_rate_limiting, true);
        let database_url = required(&env.database_url)?;
        let redis_url = required(&env.redis_url)?;
        let tv_api_url = required(&env.tv_api_url)?;
        let jwt_secret = required(&env.jwt_secret)?;
        let port_value = match &env.port {
            EnvVar::Value(s) => parse_u16(s.as_str()),
            _ => parse_u16("8080"),
        };
        let port = port_value.unwrap();
        let host = match &env.host {
            EnvVar::Value(h) => h.clone(),
            _ => String::from_str("0.0.0.0"),
        };
        Ok(
            Config {
                database_url,
                redis_url,
                tv_api_url,
                jwt_secret,
                port,
                host,
                enable_tls,
                tls_cert_path,
                tls_key_path,
                enable_rate_limiting,
            },
        )
    }
}

/// Whether log lines carry timestamps: unless `LOG_TIMESTAMPS` is `false`.
pub fn show_timestamps(log_timestamps: &EnvVar) -> (b: bool)
    ensures
        b == match env_text(*log_timestamps) {
            Some(v) => v != "false"@,
            None => true,
        },
{
    match log_timestamps {
        EnvVar::Value(v) => !str_eq(v.as_str(), "false"),
        _ => true,
    }
}

/// Where local storage keeps uploads: `LOCAL_STORAGE_PATH`, else `/var/openchat/uploads`.
pub fn local_storage_path(value: &EnvVar) -> (p: String)
    ensures
        p@ == match env_text(*value) {
            Some(v) => v,
            None => "/var/openchat/uploads"@,
        },
{
    match value {
        EnvVar::Value(v) => v.clone(),
        _ => String::from_str("/var/openchat/uploads"),
    }
}

/// Where the identity service is reached for imports: `TV_API_URL`, else the
/// public service.
pub fn import_api_url(value: &EnvVar) -> (u: String)
    ensures
        u@ == match env_text(*value) {
            Some(v) => v,
            None => "https://api.titanium-vault.com"@,
        },
{
    match value {
        EnvVar::Value(v) => v.clone(),
        _ => String::from_str("https://api.titanium-vault.com"),
    }
}

/// The certificate and key that a TLS server is started with: none without
/// TLS; with TLS both paths are required.
pub fn tls_files(config: &Config) -> (r: Result<Option<(String, String)>, String>)
    ensures
        !config.enable_tls ==> r matches Ok(None),
        config.enable_tls && config.tls_cert_path is None ==> (r matches Err(m) && m@
            == "TLS_CERT_PATH must be set when ENABLE_TLS is true"@),
        config.enable_tls && config.tls_cert_path is Some && config.tls_key_path is None ==> (
        r matches Err(m) && m@ == "TLS_KEY_PATH must be set when ENABLE_TLS is true"@),
        config.enable_tls && config.tls_cert_path is Some && config.tls_key_path is Some ==> (
        r matches Ok(Some((c, k))) && c@ == config.tls_cert_path.unwrap()@ && k@
            == config.tls_key_path.unwrap()@),
{
    if !config.enable_tls {
        return Ok(None);
    }
    let cert = match &config.tls_cert_path {
        Some(c) => c.clone(),
        None => {
            return Err(String::from_str("TLS_CERT_PATH must be set when ENABLE_TLS is true"));
        },
    };
    let key = match &config.tls_key_path {
        Some(k) => k.clone(),
        None => {
            return Err(String::from_str("TLS_KEY_PATH must be set when ENABLE_TLS is true"));
        },
    };
    Ok(Some((cert, key)))
}

/// The statement that scopes a database session to an organization (row-level
/// security): `SET app.current_org_id = '{org_id}'`.
pub fn rls_context_sql(org_id: u128) -> (s: String)
    ensures
        s@ == "SET app.current_org_id = '"@ + uuid_text(org_id) + "'"@,
{
    let u = uuid_string(org_id);
    concat3("SET app.current_org_id = '", u.as_str(), "'")
}

} // verus!
