//! The service's configuration, read from the values of its environment
//! variables and checked by the `validator` crate's rules.

use crate::number::bool_value;
use crate::number::parse_bool;
use crate::number::parse_unsigned;
use crate::number::parses_unsigned;
use crate::number::unsigned_value;
use crate::validation::length_ok;
use crate::validation::range_ok;
use crate::validation::validate_length;
use crate::validation::validate_range_u16;
use crate::validation::validate_range_usize;
use vstd::prelude::*;

verus! {

/// The values of the environment variables the configuration is read from;
/// `None` stands for a variable that is unset (or not valid Unicode).
#[derive(Debug, Clone, PartialEq, Eq)]
pub struct EnvVars {
    /// `PASTEBIN_PORT`
    pub port: Option<String>,
    /// `PASTEBIN_HOST`
    pub host: Option<String>,
    /// `DATABASE_URL`
    pub database_url: Option<String>,
    /// `PASTEBIN_MAX_PASTE_SIZE`
    pub max_paste_size: Option<String>,
    /// `PASTEBIN_RATE_LIMIT`
    pub rate_limit: Option<String>,
}

/// Configuration loaded from environment variables.
#[derive(Debug, Clone, PartialEq, Eq)]
pub struct AppConfig {
    /// Server port (default: 2729)
    pub port: u16,
    /// Host to bind to (default: "0.0.0.0")
    pub host: String,
    /// Database connection URL (required)
    pub database_url: String,
    /// Maximum paste size in bytes (default: 64KB = 65536)
    pub max_paste_size: usize,
    /// Enable per-client rate limiting (default: true). Set PASTEBIN_RATE_LIMIT=false to disable.
    pub rate_limit: bool,
}

/// Which fields of a configuration break their rule.
#[derive(Debug, Clone, Copy, PartialEq, Eq, Structural)]
pub struct FieldErrors {
    /// The port is outside 1..=65535.
    pub port: bool,
    /// The host is not 1 to 255 characters long.
    pub host: bool,
    /// The database URL is empty.
    pub database_url: bool,
    /// The maximum paste size is 0.
    pub max_paste_size: bool,
}

/// Why a configuration could not be loaded.
#[derive(Debug, Clone, Copy, PartialEq, Eq, Structural)]
pub enum ConfigError {
    /// `PASTEBIN_PORT` is not a `u16`.
    InvalidPort,
    /// `PASTEBIN_MAX_PASTE_SIZE` is not a `usize`.
    InvalidMaxPasteSize,
    /// The values were read but break the listed rules.
    Invalid(FieldErrors),
}

/// The message for a port that breaks its rule.
pub const PORT_RULE: &'static str = "port: port must be a valid port number";

/// The message for a host that breaks its rule.
pub const HOST_RULE: &'static str = "host: host must be 1-255 characters";

/// The message for a database URL that breaks its rule.
pub const DATABASE_URL_RULE: &'static str = "database_url: DATABASE_URL is required";

/// The message for a maximum paste size that breaks its rule.
pub const MAX_PASTE_SIZE_RULE: &'static str = "max_paste_size: max_paste_size must be at least 1";

/// The message when `PASTEBIN_PORT` is not a `u16`.
pub const INVALID_PORT: &'static str = "Invalid PASTEBIN_PORT";

/// The message when `PASTEBIN_MAX_PASTE_SIZE` is not a `usize`.
pub const INVALID_MAX_PASTE_SIZE: &'static str = "Invalid PASTEBIN_MAX_PASTE_SIZE";

/// Lines joined by line breaks.
pub open spec fn joined_lines(lines: Seq<Seq<char>>) -> Seq<char>
    decreases lines.len(),
{
    if lines.len() == 0 {
        Seq::empty()
    } else if lines.len() == 1 {
        lines[0]
    } else {
        joined_lines(lines.drop_last()) + seq!['\n'] + lines.last()
    }
}

/// The messages of the rules that `errors` reports broken, in the order of
/// the fields.
pub open spec fn broken_rules(errors: FieldErrors) -> Seq<Seq<char>> {
    (if errors.port { seq![PORT_RULE@] } else { Seq::empty() })
        + (if errors.host { seq![HOST_RULE@] } else { Seq::empty() })
        + (if errors.database_url { seq![DATABASE_URL_RULE@] } else { Seq::empty() })
        + (if errors.max_paste_size { seq![MAX_PASTE_SIZE_RULE@] } else { Seq::empty() })
}

/// The message that describes a configuration error.
pub open spec fn error_text(e: ConfigError) -> Seq<char> {
    match e {
        ConfigError::InvalidPort => INVALID_PORT@,
        ConfigError::InvalidMaxPasteSize => INVALID_MAX_PASTE_SIZE@,
        ConfigError::Invalid(errors) => joined_lines(broken_rules(errors)),
    }
}

/// The texts of some string slices.
pub open spec fn texts(lines: Seq<&str>) -> Seq<Seq<char>> {
    lines.map_values(|l: &str| l@)
}

/// Joins lines by line breaks.
fn join_lines(lines: &Vec<&str>) -> (r: String)
    ensures
        r@ == joined_lines(texts(lines@)),
{
    let mut r = String::new();
    let n = lines.len();
    let ghost all = texts(lines@);
    for i in 0..n
        invariant
            n == lines@.len(),
            all == texts(lines@),
            r@ == joined_lines(all.take(i as int)),
    {
        assert(all.take(i + 1).drop_last() =~= all.take(i as int));
        proof {
            reveal_strlit("\n");
        }
        if i != 0 {
            r.append("\n");
        } else {
            assert(all.take(i as int) =~= Seq::<Seq<char>>::empty());
        }
        r.append(lines[i]);
        assert(all.take(i + 1).last() == lines@[i as int]@);
    }
    assert(all.take(n as int) =~= all);
    r
}

impl ConfigError {
    /// Describes the error: which variable is wrong, or one line per broken
    /// rule.
    pub fn message(&self) -> (m: String)
        ensures
            m@ == error_text(*self),
    {
        match self {
            ConfigError::InvalidPort => String::from_str(INVALID_PORT),
            ConfigError::InvalidMaxPasteSize => String::from_str(INVALID_MAX_PASTE_SIZE),
            ConfigError::Invalid(errors) => {
                let mut lines: Vec<&str> = Vec::new();
                if errors.port {
                    lines.push(PORT_RULE);
                }
                if errors.host {
                    lines.push(HOST_RULE);
                }
                if errors.database_url {
                    lines.push(DATABASE_URL_RULE);
                }
                if errors.max_paste_size {
                    lines.push(MAX_PASTE_SIZE_RULE);
                }
                assert(texts(lines@) =~= broken_rules(*errors));
                join_lines(&lines)
            },
        }
    }
}

impl FieldErrors {
    /// Whether some field breaks its rule.
    pub open spec fn any(self) -> bool {
        self.port || self.host || self.database_url || self.max_paste_size
    }
}

/// The rules a configuration's fields are held to.
pub open spec fn field_errors(port: int, host_len: nat, url_len: nat, max_paste_size: int) -> FieldErrors {
    FieldErrors {
        port: !range_ok(port, Some(1), Some(u16::MAX as int), None, None),
        host: !length_ok(host_len, Some(1), Some(255), None),
        database_url: !length_ok(url_len, Some(1), None, None),
        max_paste_size: !range_ok(max_paste_size, Some(1), Some(usize::MAX as int), None, None),
    }
}

/// The port text: `PASTEBIN_PORT`, or `2729` when unset.
pub open spec fn port_text(env: EnvVars) -> Seq<char> {
    match env.port {
        Some(s) => s@,
        None => "2729"@,
    }
}

/// The host: `PASTEBIN_HOST`, or `0.0.0.0` when unset.
pub open spec fn host_text(env: EnvVars) -> Seq<char> {
    match env.host {
        Some(s) => s@,
        None => "0.0.0.0"@,
    }
}

/// The size text: `PASTEBIN_MAX_PASTE_SIZE`, or `65536` when unset.
pub open spec fn max_paste_size_text(env: EnvVars) -> Seq<char> {
    match env.max_paste_size {
        Some(s) => s@,
        None => "65536"@,
    }
}

/// Rate limiting is on unless `PASTEBIN_RATE_LIMIT` reads as `false`.
pub open spec fn rate_limit_of(env: EnvVars) -> bool {
    match env.rate_limit {
        Some(s) => bool_value(s@) != Some(false),
        None => true,
    }
}

/// The error that loading from `env` meets first, if any.
pub open spec fn load_error(env: EnvVars) -> Option<ConfigError> {
    if !parses_unsigned(port_text(env), u16::MAX as nat) {
        Some(ConfigError::InvalidPort)
    } else if !parses_unsigned(max_paste_size_text(env), usize::MAX as nat) {
        Some(ConfigError::InvalidMaxPasteSize)
    } else {
        let errors = field_errors(
            unsigned_value(port_text(env)) as int,
            host_text(env).len(),
            env.database_url.unwrap()@.len(),
            unsigned_value(max_paste_size_text(env)) as int,
        );
        if errors.any() {
            Some(ConfigError::Invalid(errors))
        } else {
            None
        }
    }
}

impl AppConfig {
    /// Checks the configuration against its rules, reporting every field that
    /// breaks one.
    pub fn validate(&self) -> (r: Result<(), FieldErrors>)
        ensures
            ({
                let errors = field_errors(
                    self.port as int,
                    self.host@.len(),
                    self.database_url@.len(),
                    self.max_paste_size as int,
                );
                &&& r is Ok <==> !errors.any()
                &&& r matches Err(e) ==> e == errors
            }),
            r is Ok <==> (self.port != 0 && 1 <= self.host@.len() <= 255 && self.database_url@.len()
                >= 1 && self.max_paste_size != 0),
            r matches Err(e) ==> {
                &&& e.port <==> self.port == 0
                &&& e.host <==> !(1 <= self.host@.len() <= 255)
                &&& e.database_url <==> self.database_url@.len() == 0
                &&& e.max_paste_size <==> self.max_paste_size == 0
            },
    {
        let errors = FieldErrors {
            port: !validate_range_u16(self.port, Some(1), Some(u16::MAX), None, None),
            host: !validate_length(&self.host, Some(1), Some(255), None),
            database_url: !validate_length(&self.database_url, Some(1), None, None),
            max_paste_size: !validate_range_usize(self.max_paste_size, Some(1), Some(usize::MAX), None, None),
        };
        if errors.port || errors.host || errors.database_url || errors.max_paste_size {
            Err(errors)
        } else {
            Ok(())
        }
    }

    /// Load configuration from the values of the environment variables:
    /// unset variables take their defaults and the result must pass
    /// `validate`. `DATABASE_URL` is required: loading without it is a
    /// panic, which callers rule out before calling.
    pub fn load(env: &EnvVars) -> (r: Result<AppConfig, ConfigError>)
        requires
            env.database_url is Some,
        ensures
            r is Ok <==> load_error(*env) is None,
            r matches Err(e) ==> load_error(*env) == Some(e),
            r == Err::<AppConfig, ConfigError>(ConfigError::InvalidPort) <==> !parses_unsigned(
                port_text(*env),
                65535,
            ),
            r == Err::<AppConfig, ConfigError>(ConfigError::InvalidMaxPasteSize) <==> (parses_unsigned(
                port_text(*env),
                65535,
            ) && !parses_unsigned(max_paste_size_text(*env), usize::MAX as nat)),
            r matches Ok(c) ==> {
                &&& c.port == unsigned_value(port_text(*env))
                &&& c.host@ == host_text(*env)
                &&& c.database_url@ == env.database_url.unwrap()@
                &&& c.max_paste_size == unsigned_value(max_paste_size_text(*env))
                &&& c.rate_limit == rate_limit_of(*env)
                &&& !field_errors(
                    c.port as int,
                    c.host@.len(),
                    c.database_url@.len(),
                    c.max_paste_size as int,
                ).any()
            },
    {
        let port_str: &str = match &env.port {
            Some(s) => s.as_str(),
            None => "2729",
        };
        let port = match parse_unsigned(port_str, 65535) {
            Some(v) => v as u16,
            None => return Err(ConfigError::InvalidPort),
        };
        let host = match &env.host {
            Some(s) => s.clone(),
            None => String::from_str("0.0.0.0"),
        };
        let database_url = match &env.database_url {
            Some(s) => s.clone(),
            None => {
                proof {
                    assert(false);
                }
                String::new()
            },
        };
        let size_str: &str = match &env.max_paste_size {
            Some(s) => s.as_str(),
            None => "65536",
        };
        let max_paste_size = match parse_unsigned(size_str, usize::MAX as u64) {
            Some(v) => v as usize,
            None => return Err(ConfigError::InvalidMaxPasteSize),
        };
        let rate_limit = match &env.rate_limit {
            Some(s) => match parse_bool(s.as_str()) {
                Some(b) => b,
                None => true,
            },
            None => true,
        };
        let config = AppConfig { port, host, database_url, max_paste_size, rate_limit };
        match config.validate() {
            Ok(()) => Ok(config),
            Err(errors) => Err(ConfigError::Invalid(errors)),
        }
    }
}

} // verus!
