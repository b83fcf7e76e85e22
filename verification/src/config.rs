use vstd::prelude::*;
use vstd::string::*;

verus! {

/// `c` is an ASCII decimal digit.
pub open spec fn is_digit(c: char) -> bool {
    '0' <= c && c <= '9'
}

/// The value of the decimal digit `c`.
pub open spec fn digit_value(c: char) -> nat {
    (c as int - '0' as int) as nat
}

/// Every character of `s` is a decimal digit.
pub open spec fn all_digits(s: Seq<char>) -> bool {
    forall|i: int| 0 <= i < s.len() ==> is_digit(#[trigger] s[i])
}

/// The number that the digits `s` write in base ten (most significant first).
pub open spec fn decimal_value(s: Seq<char>) -> nat
    decreases s.len(),
{
    if s.len() == 0 {
        0
    } else {
        decimal_value(s.drop_last()) * 10 + digit_value(s.last())
    }
}

/// What parsing `s` as a `u16` gives: an optional leading `+`, then at least one
/// decimal digit and nothing else, of a value that fits in 16 bits.
pub open spec fn spec_parse_u16(s: Seq<char>) -> Option<u16> {
    let digits = if s.len() > 0 && s[0] == '+' { s.drop_first() } else { s };
    if digits.len() > 0 && all_digits(digits) && decimal_value(digits) <= u16::MAX {
        Some(decimal_value(digits) as u16)
    } else {
        None
    }
}

/// Parses a decimal port number the way `str::parse::<u16>` does.
pub fn parse_u16(s: &str) -> (r: Option<u16>)
    ensures
        r == spec_parse_u16(s@),
{
    let len = s.unicode_len();
    let start: usize = if len > 0 && s.get_char(0) == '+' { 1 } else { 0 };
    if start >= len {
        return None;
    }
    let ghost digits = s@.subrange(start as int, len as int);
    proof {
        if start == 1 {
            assert(digits =~= s@.drop_first());
        } else {
            assert(digits =~= s@);
        }
    }
    let mut value: u32 = 0;
    let mut too_big = false;
    let mut i: usize = start;
    while i < len
        invariant
            start <= i <= len,
            len == s@.len(),
            digits == s@.subrange(start as int, len as int),
            digits == (if s@.len() > 0 && s@[0] == '+' { s@.drop_first() } else { s@ }),
            forall|k: int| start <= k < i ==> is_digit(#[trigger] s@[k]),
            !too_big ==> value == decimal_value(s@.subrange(start as int, i as int)),
            !too_big ==> value <= u16::MAX,
            too_big ==> decimal_value(s@.subrange(start as int, i as int)) > u16::MAX,
        decreases len - i,
    {
        let c = s.get_char(i);
        if !('0' <= c && c <= '9') {
            assert(digits[i - start] == c);
            assert(!is_digit(digits[i - start]));
            assert(!all_digits(digits));
            return None;
        }
        let ghost prefix = s@.subrange(start as int, i as int);
        let ghost next = s@.subrange(start as int, i + 1);
        assert(next.drop_last() =~= prefix);
        assert(next.last() == c);
        let d: u32 = (c as u32) - ('0' as u32);
        if !too_big {
            value = value * 10 + d;
            if value > 65535 {
                too_big = true;
            }
        }
        i = i + 1;
    }
    assert(s@.subrange(start as int, len as int) == digits);
    assert(all_digits(digits));
    if too_big {
        None
    } else {
        Some(value as u16)
    }
}

} // verus!

verus! {

/// The port the server listens on when `TASKGENERAL_PORT` gives none.
pub const DEFAULT_PORT: u16 = 8080;

/// Why `std::env::var` gave no value for a variable.
#[derive(PartialEq, Eq, Structural, Clone, Copy, Debug)]
pub enum VarError {
    /// The variable is not set.
    NotPresent,
    /// The variable is set but is not valid Unicode.
    NotUnicode,
}

/// The environment variables that the server reads, each as `std::env::var`
/// gives it.
pub struct EnvVars {
    pub database_url: Result<String, VarError>,
    pub supabase_url: Result<String, VarError>,
    pub supabase_jwt_secret: Result<String, VarError>,
    pub taskgeneral_data_dir: Result<String, VarError>,
    pub taskgeneral_port: Result<String, VarError>,
    pub taskgeneral_static_dir: Result<String, VarError>,
}

/// A variable without which the server cannot be configured.
#[derive(PartialEq, Eq, Structural, Clone, Copy, Debug)]
pub enum RequiredVar {
    DatabaseUrl,
    SupabaseUrl,
    SupabaseJwtSecret,
}

/// Why the configuration could not be assembled: which required variable
/// gave no value, and why.
#[derive(PartialEq, Eq, Structural, Clone, Copy, Debug)]
pub struct ConfigError {
    pub var: RequiredVar,
    pub cause: VarError,
}

/// The server's settings.
#[derive(Clone, Debug)]
pub struct Config {
    pub database_url: String,
    pub supabase_url: String,
    pub supabase_jwt_secret: String,
    pub taskgeneral_data_dir: Option<String>,
    pub taskgeneral_port: u16,
    pub taskgeneral_static_dir: Option<String>,
}

/// The data directory used when `TASKGENERAL_DATA_DIR` gives none.
pub open spec fn default_data_dir() -> Seq<char> {
    "~/.local/share/taskgeneral/"@
}

/// The directory of the built frontend used when `TASKGENERAL_STATIC_DIR`
/// gives none.
pub open spec fn default_static_dir() -> Seq<char> {
    "./frontend/dist"@
}

/// The text of a directory variable: its value, or `default` where it gave
/// none.
pub open spec fn spec_dir(value: Result<String, VarError>, default: Seq<char>) -> Seq<char> {
    match value {
        Ok(v) => v@,
        Err(_) => default,
    }
}

/// The value of an optional variable: none where it gave none.
pub open spec fn spec_optional(value: Result<String, VarError>) -> Option<String> {
    match value {
        Ok(v) => Some(v),
        Err(_) => None,
    }
}

/// The port that the value of `TASKGENERAL_PORT` selects: the number it writes
/// when it parses as a `u16`, else the default.
pub open spec fn spec_port(raw: Option<String>) -> u16 {
    match raw {
        Some(text) => match spec_parse_u16(text@) {
            Some(port) => port,
            None => DEFAULT_PORT,
        },
        None => DEFAULT_PORT,
    }
}

/// Why the environment `env` gives no configuration, if it gives none: the
/// three required variables are checked in order, and the first one without
/// a value is reported with the reason it has none.
pub open spec fn spec_config_error(env: EnvVars) -> Option<ConfigError> {
    match (env.database_url, env.supabase_url, env.supabase_jwt_secret) {
        (Err(cause), _, _) => Some(ConfigError { var: RequiredVar::DatabaseUrl, cause }),
        (Ok(_), Err(cause), _) => Some(ConfigError { var: RequiredVar::SupabaseUrl, cause }),
        (Ok(_), Ok(_), Err(cause)) => Some(
            ConfigError { var: RequiredVar::SupabaseJwtSecret, cause },
        ),
        _ => None,
    }
}

/// `config` is the configuration that a complete environment `env` gives:
/// the required variables as they are, the port that `TASKGENERAL_PORT`
/// selects, and the two directories, each its variable's value or, where the
/// variable gives none, its default.
pub open spec fn is_config_of(config: Config, env: EnvVars) -> bool {
    &&& config.database_url == env.database_url->Ok_0
    &&& config.supabase_url == env.supabase_url->Ok_0
    &&& config.supabase_jwt_secret == env.supabase_jwt_secret->Ok_0
    &&& config.taskgeneral_port == spec_port(spec_optional(env.taskgeneral_port))
    &&& config.taskgeneral_data_dir is Some
    &&& config.taskgeneral_data_dir->0@ == spec_dir(env.taskgeneral_data_dir, default_data_dir())
    &&& config.taskgeneral_static_dir is Some
    &&& config.taskgeneral_static_dir->0@ == spec_dir(
        env.taskgeneral_static_dir,
        default_static_dir(),
    )
}

/// `r` is what `Config::get` gives with `cached` in its cache and `env` as the
/// environment: the cached configuration if there is one, else the one that
/// the environment gives.
pub open spec fn is_get_result(cached: Option<Config>, env: EnvVars, r: Config) -> bool {
    match cached {
        Some(config) => r == config,
        None => is_config_of(r, env),
    }
}

/// Selects the listening port from the raw value of `TASKGENERAL_PORT`.
pub fn port_from(raw: Option<String>) -> (r: u16)
    ensures
        r == spec_port(raw),
        match raw {
            Some(text) => match spec_parse_u16(text@) {
                Some(port) => r == port,
                None => r == 8080,
            },
            None => r == 8080,
        },
{
    match raw {
        Some(text) => match parse_u16(text.as_str()) {
            Some(port) => port,
            None => DEFAULT_PORT,
        },
        None => DEFAULT_PORT,
    }
}

/// The value of an optional variable, dropping the reason it has none.
pub fn optional(value: Result<String, VarError>) -> (r: Option<String>)
    ensures
        r == spec_optional(value),
{
    match value {
        Ok(v) => Some(v),
        Err(_) => None,
    }
}

/// The data directory: the value of `TASKGENERAL_DATA_DIR`, or
/// `~/.local/share/taskgeneral/` where it gives none.
pub fn data_dir_from(value: Result<String, VarError>) -> (r: String)
    ensures
        r@ == spec_dir(value, default_data_dir()),
        value is Ok ==> r@ == value->Ok_0@,
        value is Err ==> r@ == "~/.local/share/taskgeneral/"@,
{
    match value {
        Ok(v) => v,
        Err(_) => String::from_str("~/.local/share/taskgeneral/"),
    }
}

/// The directory of the built frontend: the value of
/// `TASKGENERAL_STATIC_DIR`, or `./frontend/dist` where it gives none.
pub fn static_dir_from(value: Result<String, VarError>) -> (r: String)
    ensures
        r@ == spec_dir(value, default_static_dir()),
        value is Ok ==> r@ == value->Ok_0@,
        value is Err ==> r@ == "./frontend/dist"@,
{
    match value {
        Ok(v) => v,
        Err(_) => String::from_str("./frontend/dist"),
    }
}

impl Config {
    /// Assembles the configuration from the environment.
    pub fn from_env(env: EnvVars) -> (r: Result<Config, ConfigError>)
        ensures
            match r {
                Ok(config) => spec_config_error(env) is None && is_config_of(config, env),
                Err(e) => spec_config_error(env) == Some(e),
            },
    {
        let EnvVars {
            database_url,
            supabase_url,
            supabase_jwt_secret,
            taskgeneral_data_dir,
            taskgeneral_port,
            taskgeneral_static_dir,
        } = env;
        let database_url = match database_url {
            Ok(v) => v,
            Err(cause) => { return Err(ConfigError { var: RequiredVar::DatabaseUrl, cause }); },
        };
        let supabase_url = match supabase_url {
            Ok(v) => v,
            Err(cause) => { return Err(ConfigError { var: RequiredVar::SupabaseUrl, cause }); },
        };
        let supabase_jwt_secret = match supabase_jwt_secret {
            Ok(v) => v,
            Err(cause) => {
                return Err(ConfigError { var: RequiredVar::SupabaseJwtSecret, cause });
            },
        };
        Ok(
            Config {
                database_url,
                supabase_url,
                supabase_jwt_secret,
                taskgeneral_data_dir: Some(data_dir_from(taskgeneral_data_dir)),
                taskgeneral_port: port_from(optional(taskgeneral_port)),
                taskgeneral_static_dir: Some(static_dir_from(taskgeneral_static_dir)),
            },
        )
    }

    /// The configuration in force: the one held in `cache` when there is one;
    /// otherwise the one that `env` gives, which is then kept in `cache`.
    /// The environment must be complete when nothing is cached yet.
    pub fn get<'a>(cache: &'a mut Option<Config>, env: EnvVars) -> (r: &'a Config)
        requires
            old(cache).is_some() || spec_config_error(env) is None,
        ensures
            is_get_result(*old(cache), env, *r),
            *final(cache) == Some(*r),
    {
        if cache.is_none() {
            match Config::from_env(env) {
                Ok(config) => {
                    *cache = Some(config);
                },
                Err(_) => {},
            }
        }
        cache.as_ref().unwrap()
    }
}

} // verus!

verus! {

/// The decimal digit character for `d < 10`.
pub open spec fn digit_char(d: nat) -> char {
    (d + '0' as nat) as char
}

/// The decimal text of `n`, without leading zeros.
pub open spec fn spec_decimal(n: nat) -> Seq<char>
    decreases n,
{
    if n < 10 {
        seq![digit_char(n)]
    } else {
        spec_decimal(n / 10).push(digit_char(n % 10))
    }
}

/// The decimal text of `n` is a non-empty run of digits that writes `n`.
pub proof fn lemma_decimal_reads_back(n: nat)
    ensures
        spec_decimal(n).len() > 0,
        all_digits(spec_decimal(n)),
        decimal_value(spec_decimal(n)) == n,
    decreases n,
{
    if n < 10 {
        let s = spec_decimal(n);
        assert(s.drop_last() =~= Seq::<char>::empty());
        assert(decimal_value(s.drop_last()) == 0);
    } else {
        lemma_decimal_reads_back(n / 10);
        let s = spec_decimal(n);
        let prefix = spec_decimal(n / 10);
        assert(s.drop_last() =~= prefix);
        assert(s.last() == digit_char(n % 10));
        assert forall|i: int| 0 <= i < s.len() implies is_digit(#[trigger] s[i]) by {
            if i < prefix.len() {
                assert(s[i] == prefix[i]);
            }
        }
    }
}

/// Any port written in decimal in `TASKGENERAL_PORT` is the port the server
/// listens on.
pub proof fn lemma_port_written_in_decimal(port: u16)
    ensures
        spec_parse_u16(spec_decimal(port as nat)) == Some(port),
{
    lemma_decimal_reads_back(port as nat);
    let s = spec_decimal(port as nat);
    assert(is_digit(s[0]));
}

/// Once a configuration is in force, later calls of `Config::get` keep it,
/// whatever the environment says by then.
pub proof fn lemma_config_kept(first: Config, later: EnvVars, r: Config)
    requires
        is_get_result(Some(first), later, r),
    ensures
        r == first,
{
}

} // verus!

verus! {

/// Whatever text `TASKGENERAL_PORT` holds, the port chosen is the number it
/// writes when it is a valid `u16`, and 8080 exactly when it is not one; no
/// variable at all also gives 8080.
pub proof fn lemma_port_choice(raw: Option<String>)
    ensures
        raw is None ==> spec_port(raw) == 8080,
        raw is Some ==> match spec_parse_u16(raw->0@) {
            Some(port) => spec_port(raw) == port,
            None => spec_port(raw) == 8080,
        },
{
}

/// Every port, written in decimal in `TASKGENERAL_PORT`, is the port the
/// server listens on: the default never replaces a port that is given.
pub proof fn lemma_every_port_is_kept(port: u16, text: String)
    requires
        text@ == spec_decimal(port as nat),
    ensures
        spec_port(Some(text)) == port,
{
    lemma_port_written_in_decimal(port);
}

/// A directory variable that is set gives its own value, whatever the value
/// is; the default is taken only when the variable gives none.
pub proof fn lemma_directory_value_kept(v: String, cause: VarError, default: Seq<char>)
    ensures
        spec_dir(Ok(v), default) == v@,
        spec_dir(Err(cause), default) == default,
{
}

/// In the configuration, a set `TASKGENERAL_DATA_DIR` or
/// `TASKGENERAL_STATIC_DIR` is taken as it is, and an unset one is replaced by
/// its documented default.
pub proof fn lemma_config_directories(config: Config, env: EnvVars)
    requires
        is_config_of(config, env),
    ensures
        env.taskgeneral_data_dir is Ok ==> config.taskgeneral_data_dir->0@
            == env.taskgeneral_data_dir->Ok_0@,
        env.taskgeneral_data_dir is Err ==> config.taskgeneral_data_dir->0@
            == "~/.local/share/taskgeneral/"@,
        env.taskgeneral_static_dir is Ok ==> config.taskgeneral_static_dir->0@
            == env.taskgeneral_static_dir->Ok_0@,
        env.taskgeneral_static_dir is Err ==> config.taskgeneral_static_dir->0@
            == "./frontend/dist"@,
        config.taskgeneral_data_dir is Some && config.taskgeneral_static_dir is Some,
{
}

} // verus!
