use vstd::prelude::*;

verus! {

/// The name of the cookie that carries the session token.
pub const JWT_COOKIE_NAME: &'static str = "jwt";

/// The host of the cache when none is configured.
pub const DEFAULT_REDIS_HOSTNAME: &'static str = "127.0.0.1";

/// The names of the environment variables that configure the service.
pub const JWT_SECRET_ENV_VAR: &'static str = "JWT_SECRET";

pub const DATABASE_URL_ENV_VAR: &'static str = "DATABASE_URL";

pub const REDIS_HOST_NAME_ENV_VAR: &'static str = "REDIS_HOST_NAME";

pub const POSTMARK_AUTH_TOKEN_ENV_VAR: &'static str = "POSTMARK_AUTH_TOKEN";

/// The HTTP statuses that the handlers answer with.
pub const STATUS_OK: u16 = 200;

pub const STATUS_CREATED: u16 = 201;

pub const STATUS_PARTIAL_CONTENT: u16 = 206;

/// How long a session token stays valid, in seconds.
pub const TOKEN_TTL_SECONDS: i64 = 600;

/// The signing secret and the lifetime of the session tokens. It is built
/// once and handed to whoever issues or validates tokens.
pub struct TokenConfig {
    secret: String,
    ttl_seconds: i64,
}

impl TokenConfig {
    #[verifier::type_invariant]
    closed spec fn well_formed(&self) -> bool {
        self.secret@.len() > 0 && self.ttl_seconds > 0
    }

    /// The signing secret, as a mathematical value.
    pub closed spec fn secret(&self) -> Seq<char> {
        self.secret@
    }

    /// The lifetime of a token in seconds, as a mathematical value.
    pub closed spec fn ttl(&self) -> int {
        self.ttl_seconds as int
    }

    /// A configuration with the standard lifetime. An empty secret is
    /// refused.
    pub fn new(secret: String) -> (r: Option<Self>)
        ensures
            match r {
                Some(c) => secret@.len() > 0 && c.secret() == secret@ && c.ttl()
                    == TOKEN_TTL_SECONDS,
                None => secret@.len() == 0,
            },
    {
        TokenConfig::with_ttl(secret, TOKEN_TTL_SECONDS)
    }

    /// A configuration with a lifetime of `ttl_seconds`. An empty secret is
    /// refused, and so is a lifetime that is not positive.
    pub fn with_ttl(secret: String, ttl_seconds: i64) -> (r: Option<Self>)
        ensures
            match r {
                Some(c) => secret@.len() > 0 && ttl_seconds > 0 && c.secret() == secret@ && c.ttl()
                    == ttl_seconds,
                None => secret@.len() == 0 || ttl_seconds <= 0,
            },
    {
        if secret.as_str().is_empty() || ttl_seconds <= 0 {
            None
        } else {
            Some(TokenConfig { secret, ttl_seconds })
        }
    }

    /// The signing secret. It is never empty.
    pub fn secret_text(&self) -> (r: &String)
        ensures
            r@ == self.secret(),
            r@.len() > 0,
    {
        proof {
            use_type_invariant(self);
        }
        &self.secret
    }

    /// The lifetime of a token in seconds. It is positive.
    pub fn ttl_seconds(&self) -> (r: i64)
        ensures
            r == self.ttl(),
            r > 0,
    {
        proof {
            use_type_invariant(self);
        }
        self.ttl_seconds
    }
}

impl Clone for TokenConfig {
    fn clone(&self) -> (r: Self)
        ensures
            r.secret() == self.secret(),
            r.ttl() == self.ttl(),
    {
        proof {
            use_type_invariant(self);
        }
        TokenConfig { secret: self.secret.clone(), ttl_seconds: self.ttl_seconds }
    }
}

} // verus!
