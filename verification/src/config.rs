//! Where the store and the cache are to be found.

use crate::text::option_text;
use vstd::prelude::*;
use vstd::string::*;

verus! {

/// The addresses of the two stateful collaborators.
#[derive(Clone, Debug, PartialEq, Eq)]
pub struct Endpoints {
    /// Where the relational store listens.
    pub database_url: String,
    /// Where the cache listens.
    pub redis_url: String,
}

/// An address that was not given.
#[derive(Clone, Copy, Debug, PartialEq, Eq, Structural)]
pub enum ConfigError {
    /// `DATABASE_URL` is not set.
    MissingDatabaseUrl,
    /// `REDIS_URL` is not set.
    MissingRedisUrl,
}

/// What is said of an address that was not given.
pub open spec fn message_spec(error: ConfigError) -> Seq<char> {
    match error {
        ConfigError::MissingDatabaseUrl => "Missing DATABASE_URL"@,
        ConfigError::MissingRedisUrl => "Missing REDIS_URL"@,
    }
}

impl ConfigError {
    /// Says which address is missing.
    pub fn message(&self) -> (r: String)
        ensures
            r@ == message_spec(*self),
    {
        match self {
            ConfigError::MissingDatabaseUrl => String::from_str("Missing DATABASE_URL"),
            ConfigError::MissingRedisUrl => String::from_str("Missing REDIS_URL"),
        }
    }
}

/// Takes the two addresses as the surroundings gave them. Both have to be
/// there; where both are missing, the store's is the one reported.
pub fn connect(database_url: Option<String>, redis_url: Option<String>) -> (r: Result<
    Endpoints,
    ConfigError,
>)
    ensures
        database_url is None ==> r == Err::<Endpoints, ConfigError>(
            ConfigError::MissingDatabaseUrl,
        ),
        database_url is Some && redis_url is None ==> r == Err::<Endpoints, ConfigError>(
            ConfigError::MissingRedisUrl,
        ),
        database_url is Some && redis_url is Some ==> r is Ok
            && Some(r->Ok_0.database_url@) == option_text(database_url)
            && Some(r->Ok_0.redis_url@) == option_text(redis_url),
{
    let database_url = match database_url {
        Some(url) => url,
        None => {
            return Err(ConfigError::MissingDatabaseUrl);
        },
    };
    let redis_url = match redis_url {
        Some(url) => url,
        None => {
            return Err(ConfigError::MissingRedisUrl);
        },
    };
    Ok(Endpoints { database_url, redis_url })
}

} // verus!
