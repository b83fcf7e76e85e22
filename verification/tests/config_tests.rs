use taskgeneral_server::config::{
    data_dir_from, optional, parse_u16, static_dir_from, port_from, Config, ConfigError, EnvVars, RequiredVar, VarError,
    DEFAULT_PORT,
};

fn var(v: Option<&str>) -> Result<String, VarError> {
    v.map(|s| s.to_string()).ok_or(VarError::NotPresent)
}

fn env(db: Option<&str>, url: Option<&str>, secret: Option<&str>, port: Option<&str>) -> EnvVars {
    EnvVars {
        database_url: var(db),
        supabase_url: var(url),
        supabase_jwt_secret: var(secret),
        taskgeneral_data_dir: var(Some("/data")),
        taskgeneral_port: var(port),
        taskgeneral_static_dir: Err(VarError::NotUnicode),
    }
}

#[test]
fn parse_u16_matches_std() {
    for text in [
        "0", "1", "80", "8080", "65535", "65536", "+80", "+", "-1", "-0", "", " 80", "80 ",
        "0080", "99999999999", "8a", "٣", "+-1", "++1",
    ] {
        assert_eq!(parse_u16(text), text.parse::<u16>().ok(), "input {:?}", text);
    }
}

#[test]
fn parse_u16_every_port_written_in_decimal() {
    for port in 0..=u16::MAX {
        assert_eq!(parse_u16(&port.to_string()), Some(port));
    }
}

#[test]
fn port_defaults_to_8080() {
    assert_eq!(DEFAULT_PORT, 8080);
    assert_eq!(port_from(None), 8080);
    assert_eq!(port_from(Some("not a port".to_string())), 8080);
    assert_eq!(port_from(Some("70000".to_string())), 8080);
    assert_eq!(port_from(Some("3000".to_string())), 3000);
}

#[test]
fn from_env_complete() {
    let config = Config::from_env(env(Some("postgres://db"), Some("https://x.supabase.co"), Some("s3"), Some("9090"))).unwrap();
    assert_eq!(config.database_url, "postgres://db");
    assert_eq!(config.supabase_url, "https://x.supabase.co");
    assert_eq!(config.supabase_jwt_secret, "s3");
    assert_eq!(config.taskgeneral_data_dir.as_deref(), Some("/data"));
    assert_eq!(config.taskgeneral_port, 9090);
    assert_eq!(config.taskgeneral_static_dir.as_deref(), Some("./frontend/dist"));
}

#[test]
fn directories_default_as_documented() {
    let mut e = env(Some("db"), Some("u"), Some("s"), None);
    e.taskgeneral_data_dir = Err(VarError::NotPresent);
    e.taskgeneral_static_dir = Err(VarError::NotPresent);
    let config = Config::from_env(e).unwrap();
    assert_eq!(config.taskgeneral_data_dir.as_deref(), Some("~/.local/share/taskgeneral/"));
    assert_eq!(config.taskgeneral_static_dir.as_deref(), Some("./frontend/dist"));
    assert_eq!(data_dir_from(Ok("/srv/tasks".into())), "/srv/tasks");
    assert_eq!(static_dir_from(Ok("/srv/www".into())), "/srv/www");
    assert_eq!(static_dir_from(Err(VarError::NotUnicode)), "./frontend/dist");
}

#[test]
fn from_env_reports_first_missing_variable() {
    assert_eq!(
        Config::from_env(env(None, None, None, None)).unwrap_err(),
        ConfigError { var: RequiredVar::DatabaseUrl, cause: VarError::NotPresent }
    );
    assert_eq!(
        Config::from_env(env(Some("db"), None, Some("s"), None)).unwrap_err(),
        ConfigError { var: RequiredVar::SupabaseUrl, cause: VarError::NotPresent }
    );
    assert_eq!(
        Config::from_env(env(Some("db"), Some("u"), None, None)).unwrap_err(),
        ConfigError { var: RequiredVar::SupabaseJwtSecret, cause: VarError::NotPresent }
    );
    let mut e = env(Some("db"), Some("u"), Some("s"), None);
    e.supabase_url = Err(VarError::NotUnicode);
    assert_eq!(
        Config::from_env(e).unwrap_err(),
        ConfigError { var: RequiredVar::SupabaseUrl, cause: VarError::NotUnicode }
    );
}

#[test]
fn optional_variables_drop_the_reason() {
    assert_eq!(optional(Ok("x".to_string())), Some("x".to_string()));
    assert_eq!(optional(Err(VarError::NotPresent)), None);
    assert_eq!(optional(Err(VarError::NotUnicode)), None);
    let mut e = env(Some("db"), Some("u"), Some("s"), None);
    e.taskgeneral_port = Err(VarError::NotUnicode);
    assert_eq!(Config::from_env(e).unwrap().taskgeneral_port, 8080);
}

#[test]
fn get_loads_once_then_keeps() {
    let mut cache = None;
    let first = Config::get(&mut cache, env(Some("db1"), Some("u1"), Some("s1"), None)).clone();
    assert_eq!(first.database_url, "db1");
    assert_eq!(first.taskgeneral_port, 8080);
    let second = Config::get(&mut cache, env(Some("db2"), Some("u2"), Some("s2"), Some("1"))).clone();
    assert_eq!(second.database_url, "db1");
    assert_eq!(second.taskgeneral_port, 8080);
    let third = Config::get(&mut cache, env(None, None, None, None));
    assert_eq!(third.supabase_url, "u1");
}
