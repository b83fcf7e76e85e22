use taskgeneral_server::auth::{authenticate, bearer_token, Auth, Claims, SigningAlgorithm};
use taskgeneral_server::config::{EnvVars, VarError};
use taskgeneral_server::error::AppError;

fn auth() -> Auth {
    Auth { supabase_url: "https://proj.supabase.co/auth/v1".to_string(), jwt_secret: "secret".to_string() }
}

fn claims(sub: &str) -> Claims {
    Claims {
        sub: sub.to_string(),
        aud: "authenticated".to_string(),
        iss: "https://proj.supabase.co/auth/v1".to_string(),
        exp: 2_000_000_000,
        iat: 1_700_000_000,
        role: Some("authenticated".to_string()),
        email: None,
    }
}

#[test]
fn bearer_token_takes_what_follows_the_prefix() {
    assert_eq!(bearer_token(Some("Bearer abc.def.ghi")).ok(), Some("abc.def.ghi"));
    assert_eq!(bearer_token(Some("Bearer ")).ok(), Some(""));
}

#[test]
fn bearer_token_round_trip() {
    for token in ["", "x", "eyJhbGciOiJIUzI1NiJ9.e30.sig", "Bearer nested"] {
        let header = format!("Bearer {}", token);
        assert_eq!(bearer_token(Some(&header)).ok(), Some(token));
    }
}

#[test]
fn bearer_token_refuses_other_headers() {
    for header in [None, Some(""), Some("Bearer"), Some("bearer abc"), Some("Basic abc"), Some(" Bearer abc")] {
        assert!(matches!(bearer_token(header), Err(AppError::Unauthorized)), "{:?}", header);
    }
}

#[test]
fn from_env_takes_url_and_secret() {
    let env = EnvVars {
        database_url: Err(VarError::NotPresent),
        supabase_url: Ok("https://u".to_string()),
        supabase_jwt_secret: Ok("k".to_string()),
        taskgeneral_data_dir: Err(VarError::NotPresent),
        taskgeneral_port: Err(VarError::NotPresent),
        taskgeneral_static_dir: Err(VarError::NotPresent),
    };
    let a = Auth::from_env(env);
    assert_eq!(a.supabase_url, "https://u");
    assert_eq!(a.jwt_secret, "k");
}

#[test]
fn token_rules_follow_the_project() {
    let rules = auth().token_rules();
    assert_eq!(rules.algorithm, SigningAlgorithm::Hs256);
    assert_eq!(rules.secret, "secret");
    assert!(rules.validate_exp);
    assert_eq!(rules.audience, vec!["authenticated".to_string()]);
    assert_eq!(rules.issuer, vec!["https://proj.supabase.co/auth/v1".to_string()]);
}

#[test]
fn validate_token_gives_the_subject() {
    let r = auth().validate_token(Ok(claims("550e8400-e29b-41d4-a716-446655440000")));
    assert_eq!(r, Ok(0x550e8400e29b41d4a716446655440000));
}

#[test]
fn validate_token_refuses_bad_subject_and_decode_errors() {
    assert!(auth().validate_token(Ok(claims("user-42"))).is_err());
    assert_eq!(auth().validate_token(Err("ExpiredSignature".to_string())), Err("ExpiredSignature".to_string()));
}

#[test]
fn authenticate_maps_outcome() {
    assert_eq!(authenticate(Ok(5)).ok().map(|u| u.0), Some(5));
    assert!(matches!(authenticate(Err("bad".into())), Err(AppError::Unauthorized)));
}
