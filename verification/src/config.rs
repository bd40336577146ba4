//! The configuration: how it is read from the values of the environment, what
//! is checked at boot, and the address of the key-value store.

use vstd::prelude::*;
use vstd::string::*;
use vstd::utf8::*;
use crate::text::{chars_of, dec_text, digits_value, push_decimal, read_digits};

verus! {

/// The values of the recognized environment variables; `None` for one that is
/// not set, or whose value is no text.
#[derive(Clone, Debug)]
pub struct Environment {
    pub convex_site_url: Option<String>,
    pub capture_shared_secret: Option<String>,
    pub redis_host: Option<String>,
    pub redis_port: Option<String>,
    pub redis_password: Option<String>,
    pub redis_db: Option<String>,
    pub port: Option<String>,
    pub sentry_dsn: Option<String>,
    pub receiver_debug: Option<String>,
    pub flush_workers: Option<String>,
    pub batch_max_size: Option<String>,
    pub flush_interval_ms: Option<String>,
    pub endpoint_cache_ttl_secs: Option<String>,
    pub quota_cache_ttl_secs: Option<String>,
    pub clickhouse_host: Option<String>,
    pub clickhouse_port: Option<String>,
    pub clickhouse_scheme: Option<String>,
    pub clickhouse_user: Option<String>,
    pub clickhouse_password: Option<String>,
    pub clickhouse_database: Option<String>,
}

/// The configuration of the gateway.
#[derive(Clone)]
pub struct Config {
    pub convex_site_url: String,
    pub capture_shared_secret: String,
    pub redis_host: String,
    pub redis_port: u16,
    pub redis_password: Option<String>,
    pub redis_db: u8,
    pub port: u16,
    pub sentry_dsn: Option<String>,
    pub debug: bool,
    pub flush_workers: usize,
    pub batch_max_size: usize,
    pub flush_interval_ms: u64,
    pub endpoint_cache_ttl_secs: u64,
    pub quota_cache_ttl_secs: u64,
    /// The address of the column store; `None` where none is configured.
    pub clickhouse_url: Option<String>,
    pub clickhouse_user: String,
    pub clickhouse_password: String,
    pub clickhouse_database: String,
}

/// Why the environment gives no configuration.
#[derive(Clone, Copy, Debug, PartialEq, Eq, Structural)]
pub enum ConfigError {
    /// `CONVEX_SITE_URL` is not set.
    MissingConvexSiteUrl,
    /// `CAPTURE_SHARED_SECRET` is not set.
    MissingCaptureSharedSecret,
    /// `CLICKHOUSE_DATABASE` holds anything but letters, digits and `_`, or
    /// nothing.
    InvalidDatabaseName,
    /// `FLUSH_WORKERS` is 0.
    NoFlushWorkers,
    /// `BATCH_MAX_SIZE` is 0.
    NoBatchSize,
}

/// The number that an unsigned number's text spells: digits, with an optional
/// plus sign before them.
pub open spec fn unsigned_value(s: Seq<char>) -> Option<nat> {
    if s.len() > 0 && s[0] == '+' {
        digits_value(s.skip(1))
    } else {
        digits_value(s)
    }
}

/// The value of a numeric variable: the number that it spells where it is
/// set, spells one, and the number is at most `max`; else `default`.
pub open spec fn number_or(text: Option<Seq<char>>, default: nat, max: nat) -> nat {
    match text {
        Some(t) => match unsigned_value(t) {
            Some(v) => if v <= max {
                v
            } else {
                default
            },
            None => default,
        },
        None => default,
    }
}

/// The view of an optional string.
pub open spec fn opt_text(s: Option<String>) -> Option<Seq<char>> {
    match s {
        Some(t) => Some(t@),
        None => None,
    }
}

/// Reads a numeric variable, with `default` for one that is not set or holds
/// no number up to `max`.
pub fn parse_env_or(value: &Option<String>, default: u64, max: u64) -> (r: u64)
    ensures
        r == number_or(opt_text(*value), default as nat, max as nat),
{
    match value {
        Some(text) => {
            let v = chars_of(text.as_str());
            let from: usize = if v.len() > 0 && v[0] == '+' {
                1
            } else {
                0
            };
            proof {
                if from == 1 {
                    assert(v@.skip(1) =~= v@.subrange(1, v@.len() as int));
                } else {
                    assert(v@ =~= v@.subrange(0, v@.len() as int));
                }
            }
            match read_digits(&v, from, v.len(), max as u128 + 1) {
                Some(x) => if x <= max as u128 {
                    x as u64
                } else {
                    default
                },
                None => default,
            }
        },
        None => default,
    }
}

/// A variable that counts only where it is set and not empty.
pub open spec fn non_empty(text: Option<Seq<char>>) -> Option<Seq<char>> {
    match text {
        Some(t) => if t.len() > 0 {
            Some(t)
        } else {
            None
        },
        None => None,
    }
}

fn filled(value: &Option<String>) -> (r: Option<String>)
    ensures
        opt_text(r) == non_empty(opt_text(*value)),
{
    match value {
        Some(t) => if t.as_str().is_empty() {
            None
        } else {
            Some(t.clone())
        },
        None => None,
    }
}

/// The value of a variable, or `default` where it is not set.
pub open spec fn text_or(text: Option<Seq<char>>, default: Seq<char>) -> Seq<char> {
    match text {
        Some(t) => t,
        None => default,
    }
}

fn value_or(value: &Option<String>, default: &str) -> (r: String)
    ensures
        r@ == text_or(opt_text(*value), default@),
{
    match value {
        Some(t) => t.clone(),
        None => default.to_owned(),
    }
}

/// A character of a database name: an ASCII letter, an ASCII digit or `_`.
pub open spec fn is_name_char(c: char) -> bool {
    ('a' <= c <= 'z') || ('A' <= c <= 'Z') || ('0' <= c <= '9') || c == '_'
}

/// A database name: one or more name characters.
pub open spec fn valid_database_name(name: Seq<char>) -> bool {
    &&& name.len() > 0
    &&& forall|i: int| 0 <= i < name.len() ==> is_name_char(#[trigger] name[i])
}

/// Whether `name` may be used as the column store's database.
pub fn is_valid_database_name(name: &str) -> (r: bool)
    ensures
        r == valid_database_name(name@),
{
    let v = chars_of(name);
    let n: usize = v.len();
    if n == 0 {
        return false;
    }
    let mut i: usize = 0;
    while i < n
        invariant
            n == v@.len(),
            v@ == name@,
            i <= n,
            forall|j: int| 0 <= j < i ==> is_name_char(#[trigger] v@[j]),
        decreases n - i,
    {
        let c = v[i];
        if !(('a' <= c && c <= 'z') || ('A' <= c && c <= 'Z') || ('0' <= c && c <= '9') || c
            == '_') {
            return false;
        }
        i += 1;
    }
    true
}

/// The address of the column store for a host: scheme, host and port.
pub open spec fn column_store_url(scheme: Seq<char>, host: Seq<char>, port: u16) -> Seq<char> {
    scheme + "://"@ + host + ":"@ + dec_text(port as nat)
}

/// Why the environment gives no configuration, if it gives none; the checks
/// are made in this order.
pub open spec fn config_error(env: Environment) -> Option<ConfigError> {
    if env.convex_site_url is None {
        Some(ConfigError::MissingConvexSiteUrl)
    } else if env.capture_shared_secret is None {
        Some(ConfigError::MissingCaptureSharedSecret)
    } else if !valid_database_name(text_or(opt_text(env.clickhouse_database), "webhooks"@)) {
        Some(ConfigError::InvalidDatabaseName)
    } else if number_or(opt_text(env.flush_workers), 4, usize::MAX as nat) == 0 {
        Some(ConfigError::NoFlushWorkers)
    } else if number_or(opt_text(env.batch_max_size), 50, usize::MAX as nat) == 0 {
        Some(ConfigError::NoBatchSize)
    } else {
        None
    }
}

/// The configuration that the environment gives: each value with its default.
pub open spec fn configured(env: Environment, c: Config) -> bool {
    &&& Some(c.convex_site_url@) == opt_text(env.convex_site_url)
    &&& Some(c.capture_shared_secret@) == opt_text(env.capture_shared_secret)
    &&& c.redis_host@ == text_or(opt_text(env.redis_host), "127.0.0.1"@)
    &&& c.redis_port == number_or(opt_text(env.redis_port), 6380, 0xffff)
    &&& opt_text(c.redis_password) == non_empty(opt_text(env.redis_password))
    &&& c.redis_db == number_or(opt_text(env.redis_db), 0, 0xff)
    &&& c.port == number_or(opt_text(env.port), 3001, 0xffff)
    &&& opt_text(c.sentry_dsn) == non_empty(opt_text(env.sentry_dsn))
    &&& c.debug == (non_empty(opt_text(env.receiver_debug)) is Some)
    &&& c.flush_workers == number_or(opt_text(env.flush_workers), 4, usize::MAX as nat)
    &&& c.batch_max_size == number_or(opt_text(env.batch_max_size), 50, usize::MAX as nat)
    &&& c.flush_interval_ms == number_or(opt_text(env.flush_interval_ms), 100, u64::MAX as nat)
    &&& c.endpoint_cache_ttl_secs == number_or(
        opt_text(env.endpoint_cache_ttl_secs),
        300,
        u64::MAX as nat,
    )
    &&& c.quota_cache_ttl_secs == number_or(
        opt_text(env.quota_cache_ttl_secs),
        300,
        u64::MAX as nat,
    )
    &&& opt_text(c.clickhouse_url) == match non_empty(opt_text(env.clickhouse_host)) {
        Some(host) => Some(
            column_store_url(
                text_or(opt_text(env.clickhouse_scheme), "http"@),
                host,
                number_or(opt_text(env.clickhouse_port), 8123, 0xffff) as u16,
            ),
        ),
        None => None,
    }
    &&& c.clickhouse_user@ == text_or(opt_text(env.clickhouse_user), "default"@)
    &&& c.clickhouse_password@ == text_or(opt_text(env.clickhouse_password), Seq::empty())
    &&& c.clickhouse_database@ == text_or(opt_text(env.clickhouse_database), "webhooks"@)
}

/// The bytes that stand unchanged in a percent-encoded component: ASCII
/// letters and digits.
pub open spec fn is_alnum_byte(b: u8) -> bool {
    (0x30 <= b <= 0x39) || (0x41 <= b <= 0x5a) || (0x61 <= b <= 0x7a)
}

/// The character of a hexadecimal digit, in upper case.
pub open spec fn upper_hex_char(d: nat) -> char {
    if d < 10 {
        ((48 + d) as u8) as char
    } else {
        ((55 + d) as u8) as char
    }
}

/// One byte percent-encoded: itself where it is an ASCII letter or digit,
/// else `%` and its two hexadecimal digits.
pub open spec fn percent_byte(b: u8) -> Seq<char> {
    if is_alnum_byte(b) {
        seq![b as char]
    } else {
        seq!['%', upper_hex_char(b as nat / 16), upper_hex_char(b as nat % 16)]
    }
}

/// Bytes percent-encoded, one after the other.
pub open spec fn percent_encoded(bytes: Seq<u8>) -> Seq<char>
    decreases bytes.len(),
{
    if bytes.len() == 0 {
        Seq::empty()
    } else {
        percent_encoded(bytes.drop_last()) + percent_byte(bytes.last())
    }
}

/// Percent-encodes all of a text but its ASCII letters and digits.
///
/// Trusted: the body is `percent_encoding::utf8_percent_encode` with the set
/// `NON_ALPHANUMERIC`, made into a string. The crate walks the bytes of the
/// UTF-8 text, hands on an ASCII byte outside the set unchanged, and writes
/// every other byte as `%` and two upper-case hexadecimal digits.
#[verifier::external_body]
fn percent_encode_component(input: &str) -> (r: String)
    ensures
        r@ == percent_encoded(input.spec_bytes()),
{
    percent_encoding::utf8_percent_encode(input, percent_encoding::NON_ALPHANUMERIC).to_string()
}

impl Config {
    /// The address of the key-value store.
    pub open spec fn redis_url_text(&self) -> Seq<char> {
        match self.redis_password {
            Some(pw) => "redis://:"@ + percent_encoded(encode_utf8(pw@)) + "@"@
                + self.redis_host@ + ":"@ + dec_text(self.redis_port as nat) + "/"@ + dec_text(
                self.redis_db as nat,
            ),
            None => "redis://"@ + self.redis_host@ + ":"@ + dec_text(self.redis_port as nat) + "/"@
                + dec_text(self.redis_db as nat),
        }
    }

    /// Makes the configuration from the values of the environment. A numeric
    /// variable that holds no number of its type counts as not set.
    pub fn from_env(env: &Environment) -> (r: Result<Config, ConfigError>)
        ensures
            match config_error(*env) {
                Some(e) => r == Err::<Config, ConfigError>(e),
                None => r matches Ok(c) && configured(*env, c),
            },
    {
        let convex_site_url = match &env.convex_site_url {
            Some(v) => v.clone(),
            None => {
                return Err(ConfigError::MissingConvexSiteUrl);
            },
        };
        let capture_shared_secret = match &env.capture_shared_secret {
            Some(v) => v.clone(),
            None => {
                return Err(ConfigError::MissingCaptureSharedSecret);
            },
        };
        let clickhouse_database = value_or(&env.clickhouse_database, "webhooks");
        if !is_valid_database_name(clickhouse_database.as_str()) {
            return Err(ConfigError::InvalidDatabaseName);
        }
        let flush_workers = parse_env_or(&env.flush_workers, 4, usize::MAX as u64) as usize;
        if flush_workers == 0 {
            return Err(ConfigError::NoFlushWorkers);
        }
        let batch_max_size = parse_env_or(&env.batch_max_size, 50, usize::MAX as u64) as usize;
        if batch_max_size == 0 {
            return Err(ConfigError::NoBatchSize);
        }
        let clickhouse_port = parse_env_or(&env.clickhouse_port, 8123, 0xffff) as u16;
        let clickhouse_url = match filled(&env.clickhouse_host) {
            Some(host) => {
                let mut url = value_or(&env.clickhouse_scheme, "http");
                url.append("://");
                url.append(host.as_str());
                url.append(":");
                push_decimal(&mut url, clickhouse_port as u64);
                Some(url)
            },
            None => None,
        };
        proof {
            reveal_strlit("");
            assert(""@ =~= Seq::<char>::empty());
        }
        Ok(
            Config {
                convex_site_url,
                capture_shared_secret,
                redis_host: value_or(&env.redis_host, "127.0.0.1"),
                redis_port: parse_env_or(&env.redis_port, 6380, 0xffff) as u16,
                redis_password: filled(&env.redis_password),
                redis_db: parse_env_or(&env.redis_db, 0, 0xff) as u8,
                port: parse_env_or(&env.port, 3001, 0xffff) as u16,
                sentry_dsn: filled(&env.sentry_dsn),
                debug: filled(&env.receiver_debug).is_some(),
                flush_workers,
                batch_max_size,
                flush_interval_ms: parse_env_or(&env.flush_interval_ms, 100, u64::MAX),
                endpoint_cache_ttl_secs: parse_env_or(&env.endpoint_cache_ttl_secs, 300, u64::MAX),
                quota_cache_ttl_secs: parse_env_or(&env.quota_cache_ttl_secs, 300, u64::MAX),
                clickhouse_url,
                clickhouse_user: value_or(&env.clickhouse_user, "default"),
                clickhouse_password: value_or(&env.clickhouse_password, ""),
                clickhouse_database,
            },
        )
    }

    /// The address of the key-value store, with the password, if there is
    /// one, percent-encoded.
    pub fn redis_url(&self) -> (url: String)
        ensures
            url@ == self.redis_url_text(),
    {
        let mut url = String::from_str("redis://");
        match &self.redis_password {
            Some(pw) => {
                url.append(":");
                let encoded = percent_encode_component(pw.as_str());
                url.append(encoded.as_str());
                url.append("@");
            },
            None => {},
        }
        url.append(self.redis_host.as_str());
        url.append(":");
        push_decimal(&mut url, self.redis_port as u64);
        url.append("/");
        push_decimal(&mut url, self.redis_db as u64);
        proof {
            reveal_strlit("redis://");
            reveal_strlit("redis://:");
            reveal_strlit(":");
            assert(url@ =~= self.redis_url_text());
        }
        url
    }

    /// A copy for logs: the shared secret and the passwords are replaced by
    /// `[REDACTED]`, and the error-tracker address is left out.
    pub fn redacted(&self) -> (c: Config)
        ensures
            c.capture_shared_secret@ == "[REDACTED]"@,
            c.clickhouse_password@ == "[REDACTED]"@,
            c.redis_password is Some == self.redis_password is Some,
            c.redis_password matches Some(p) ==> p@ == "[REDACTED]"@,
            c.sentry_dsn is None,
            c.convex_site_url@ == self.convex_site_url@,
            c.redis_host@ == self.redis_host@,
            c.redis_port == self.redis_port,
            c.redis_db == self.redis_db,
            c.port == self.port,
            c.debug == self.debug,
            c.flush_workers == self.flush_workers,
            c.batch_max_size == self.batch_max_size,
            c.flush_interval_ms == self.flush_interval_ms,
            c.endpoint_cache_ttl_secs == self.endpoint_cache_ttl_secs,
            c.quota_cache_ttl_secs == self.quota_cache_ttl_secs,
            opt_text(c.clickhouse_url) == opt_text(self.clickhouse_url),
            c.clickhouse_user@ == self.clickhouse_user@,
            c.clickhouse_database@ == self.clickhouse_database@,
    {
        Config {
            convex_site_url: self.convex_site_url.clone(),
            capture_shared_secret: String::from_str("[REDACTED]"),
            redis_host: self.redis_host.clone(),
            redis_port: self.redis_port,
            redis_password: match &self.redis_password {
                Some(_) => Some(String::from_str("[REDACTED]")),
                None => None,
            },
            redis_db: self.redis_db,
            port: self.port,
            sentry_dsn: None,
            debug: self.debug,
            flush_workers: self.flush_workers,
            batch_max_size: self.batch_max_size,
            flush_interval_ms: self.flush_interval_ms,
            endpoint_cache_ttl_secs: self.endpoint_cache_ttl_secs,
            quota_cache_ttl_secs: self.quota_cache_ttl_secs,
            clickhouse_url: match &self.clickhouse_url {
                Some(u) => Some(u.clone()),
                None => None,
            },
            clickhouse_user: self.clickhouse_user.clone(),
            clickhouse_password: String::from_str("[REDACTED]"),
            clickhouse_database: self.clickhouse_database.clone(),
        }
    }
}

} // verus!
