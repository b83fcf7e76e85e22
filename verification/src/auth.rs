use vstd::prelude::*;
use vstd::string::*;

use crate::config::EnvVars;
use crate::error::AppError;
use crate::ident::{read_uuid, spec_read_uuid, uuid_parse, UserId};

verus! {

/// The claims that a Supabase access token carries.
#[derive(Clone, Debug)]
pub struct Claims {
    pub sub: String,
    pub aud: String,
    pub iss: String,
    pub exp: u64,
    pub iat: u64,
    pub role: Option<String>,
    pub email: Option<String>,
}

/// The signing algorithm that tokens must use.
#[derive(PartialEq, Eq, Structural, Clone, Copy, Debug)]
pub enum SigningAlgorithm {
    Hs256,
}

/// What a token must satisfy to be decoded: its algorithm, the shared secret
/// that signs it, whether its expiry is checked, and the accepted audiences
/// and issuers.
#[derive(Clone, Debug)]
pub struct TokenRules {
    pub algorithm: SigningAlgorithm,
    pub secret: String,
    pub validate_exp: bool,
    pub audience: Vec<String>,
    pub issuer: Vec<String>,
}

/// Checks bearer tokens against the Supabase project that issues them.
#[derive(Clone, Debug)]
pub struct Auth {
    pub supabase_url: String,
    pub jwt_secret: String,
}

/// The prefix of an `Authorization` header that carries a bearer token.
pub open spec fn bearer_prefix() -> Seq<char> {
    seq!['B', 'e', 'a', 'r', 'e', 'r', ' ']
}

/// The token in the `Authorization` header `header`: what follows the prefix
/// `Bearer `, when the header is there and starts with it.
pub open spec fn spec_bearer(header: Option<Seq<char>>) -> Option<Seq<char>> {
    match header {
        Some(h) => if h.len() >= 7 && h.subrange(0, 7) == bearer_prefix() {
            Some(h.subrange(7, h.len() as int))
        } else {
            None
        },
        None => None,
    }
}

/// The view of an optional header.
pub open spec fn header_view(header: Option<&str>) -> Option<Seq<char>> {
    match header {
        Some(h) => Some(h@),
        None => None,
    }
}

/// Takes the bearer token out of the `Authorization` header; a missing header,
/// or one of another scheme, is unauthorized.
pub fn bearer_token<'a>(header: Option<&'a str>) -> (r: Result<&'a str, AppError>)
    ensures
        match spec_bearer(header_view(header)) {
            Some(token) => r is Ok && r->Ok_0@ == token,
            None => r is Err && r->Err_0 is Unauthorized,
        },
{
    let h = match header {
        Some(h) => h,
        None => { return Err(AppError::Unauthorized); },
    };
    let prefix = "Bearer ";
    proof {
        reveal_strlit("Bearer ");
        assert(prefix@ =~= bearer_prefix());
    }
    let len = h.unicode_len();
    if len < 7 {
        return Err(AppError::Unauthorized);
    }
    let mut k: usize = 0;
    while k < 7
        invariant
            k <= 7 <= len,
            len == h@.len(),
            header_view(header) == Some(h@),
            prefix@ == bearer_prefix(),
            forall|j: int| 0 <= j < k ==> h@[j] == bearer_prefix()[j],
        decreases 7 - k,
    {
        let c = h.get_char(k);
        let p = prefix.get_char(k);
        if c != p {
            assert(h@.subrange(0, 7)[k as int] == c);
            assert(bearer_prefix()[k as int] == p);
            assert(h@.subrange(0, 7) != bearer_prefix());
            return Err(AppError::Unauthorized);
        }
        k = k + 1;
    }
    assert(h@.subrange(0, 7) =~= bearer_prefix());
    Ok(h.substring_char(7, len))
}

/// What accepting the outcome of decoding a token gives: the decoding error,
/// or the UUID that the `sub` claim names (or the error of reading it).
pub open spec fn spec_validate(decoded: Result<Claims, String>) -> Result<u128, Seq<char>> {
    match decoded {
        Ok(claims) => spec_read_uuid(claims.sub@),
        Err(e) => Err(e@),
    }
}

impl Auth {
    /// The settings from `SUPABASE_URL` and `SUPABASE_JWT_SECRET`, both of
    /// which must be set.
    pub fn from_env(env: EnvVars) -> (r: Auth)
        requires
            env.supabase_url is Ok,
            env.supabase_jwt_secret is Ok,
        ensures
            r.supabase_url == env.supabase_url->Ok_0,
            r.jwt_secret == env.supabase_jwt_secret->Ok_0,
    {
        let EnvVars { supabase_url, supabase_jwt_secret, .. } = env;
        Auth { supabase_url: supabase_url.unwrap(), jwt_secret: supabase_jwt_secret.unwrap() }
    }

    /// The rules a token must meet: HS256 under the project's secret, not
    /// expired, for the audience `authenticated`, issued by the project.
    pub fn token_rules(&self) -> (r: TokenRules)
        ensures
            r.algorithm == SigningAlgorithm::Hs256,
            r.secret == self.jwt_secret,
            r.validate_exp,
            r.audience@.len() == 1,
            r.audience@[0]@ == "authenticated"@,
            r.issuer@.len() == 1,
            r.issuer@[0] == self.supabase_url,
    {
        TokenRules {
            algorithm: SigningAlgorithm::Hs256,
            secret: self.jwt_secret.clone(),
            validate_exp: true,
            audience: vec![String::from_str("authenticated")],
            issuer: vec![self.supabase_url.clone()],
        }
    }

    /// Accepts a token whose decoding under `token_rules` gave `decoded`:
    /// the user is the UUID in the `sub` claim. A decoding failure, or a `sub`
    /// that is no UUID, is refused with its error text.
    pub fn validate_token(&self, decoded: Result<Claims, String>) -> (r: Result<u128, String>)
        ensures
            match r {
                Ok(user) => spec_validate(decoded) == Ok::<u128, Seq<char>>(user),
                Err(message) => spec_validate(decoded) == Err::<u128, Seq<char>>(message@),
            },
            match decoded {
                Ok(claims) => match r {
                    Ok(user) => uuid_parse(claims.sub@) == Ok::<u128, Seq<char>>(user),
                    Err(message) => uuid_parse(claims.sub@) == Err::<u128, Seq<char>>(message@),
                },
                Err(e) => r is Err && r->Err_0@ == e@,
            },
    {
        match decoded {
            Ok(claims) => read_uuid(claims.sub.as_str()),
            Err(e) => Err(e),
        }
    }
}

/// The user on whose behalf a request runs, from the outcome of
/// `validate_token`; a refused token is unauthorized.
pub fn authenticate(validated: Result<u128, String>) -> (r: Result<UserId, AppError>)
    ensures
        match validated {
            Ok(id) => r is Ok && r->Ok_0 == UserId(id),
            Err(_) => r is Err && r->Err_0 is Unauthorized,
        },
{
    match validated {
        Ok(id) => Ok(UserId(id)),
        Err(_) => Err(AppError::Unauthorized),
    }
}

} // verus!

verus! {

/// A header that is `Bearer ` followed by a token yields exactly that token.
pub proof fn lemma_bearer_round_trip(token: Seq<char>)
    ensures
        spec_bearer(Some(bearer_prefix() + token)) == Some(token),
{
    let h = bearer_prefix() + token;
    assert(h.subrange(0, 7) =~= bearer_prefix());
    assert(h.subrange(7, h.len() as int) =~= token);
}

} // verus!

verus! {

/// Accepting decoded claims depends on the `sub` claim alone: the outcome is
/// exactly that of `uuid::Uuid::parse_str` on it, and two sets of claims with
/// the same subject are accepted alike, whatever their audience, issuer,
/// times, role or email. A decoding error is passed on as it is.
pub proof fn lemma_validate_reads_subject_only(c1: Claims, c2: Claims, e: String)
    ensures
        spec_validate(Ok(c1)) == uuid_parse(c1.sub@),
        c1.sub@ == c2.sub@ ==> spec_validate(Ok(c1)) == spec_validate(Ok(c2)),
        spec_validate(Err(e)) == Err::<u128, Seq<char>>(e@),
{
}

} // verus!
