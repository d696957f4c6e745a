use vstd::prelude::*;

verus! {

/// The server settings, read from the environment.
pub struct Config {
    pub database_url: String,
    pub ip_address: String,
    pub jwt_secret: String,
    pub port: String,
}

/// A required setting that the environment does not provide.
#[derive(Debug, Clone, Copy, PartialEq, Eq, Structural)]
pub enum ConfigError {
    /// `DATABASE_URL` is not set.
    MissingDatabaseUrl,
    /// `JWT_SECRET` is not set.
    MissingJwtSecret,
    /// `IP_ADDRESS` is not set.
    MissingIpAddress,
}

impl ConfigError {
    /// The text the server stops with.
    pub open spec fn spec_message(self) -> Seq<char> {
        match self {
            ConfigError::MissingDatabaseUrl => "DATABASE_URL must be set"@,
            ConfigError::MissingJwtSecret => "JWT_SECRET must be set"@,
            ConfigError::MissingIpAddress => "Ip address not set"@,
        }
    }

    /// The text the server stops with.
    pub fn message(&self) -> (text: &'static str)
        ensures
            text@ == self.spec_message(),
    {
        match self {
            ConfigError::MissingDatabaseUrl => "DATABASE_URL must be set",
            ConfigError::MissingJwtSecret => "JWT_SECRET must be set",
            ConfigError::MissingIpAddress => "Ip address not set",
        }
    }
}

/// The port used when `PORT` is not set.
pub open spec fn default_port() -> Seq<char> {
    "8080"@
}

impl Config {
    /// Builds the settings from the values of `DATABASE_URL`,
    /// `JWT_SECRET`, `IP_ADDRESS` and `PORT` (each `None` when unset).
    /// The first three are required and checked in that order; the port
    /// defaults to `8080`.
    pub fn from_vars(
        database_url: Option<String>,
        jwt_secret: Option<String>,
        ip_address: Option<String>,
        port: Option<String>,
    ) -> (r: Result<Config, ConfigError>)
        ensures
            database_url is None ==> r == Err::<Config, ConfigError>(ConfigError::MissingDatabaseUrl),
            database_url is Some && jwt_secret is None ==> r == Err::<Config, ConfigError>(
                ConfigError::MissingJwtSecret,
            ),
            database_url is Some && jwt_secret is Some && ip_address is None ==> r == Err::<
                Config,
                ConfigError,
            >(ConfigError::MissingIpAddress),
            r matches Ok(c) ==> {
                &&& database_url matches Some(d) && c.database_url@ == d@
                &&& jwt_secret matches Some(s) && c.jwt_secret@ == s@
                &&& ip_address matches Some(a) && c.ip_address@ == a@
                &&& c.port@ == match port {
                    Some(p) => p@,
                    None => default_port(),
                }
            },
            (database_url is Some && jwt_secret is Some && ip_address is Some) ==> r is Ok,
    {
        let database_url = match database_url {
            Some(v) => v,
            None => return Err(ConfigError::MissingDatabaseUrl),
        };
        let jwt_secret = match jwt_secret {
            Some(v) => v,
            None => return Err(ConfigError::MissingJwtSecret),
        };
        let ip_address = match ip_address {
            Some(v) => v,
            None => return Err(ConfigError::MissingIpAddress),
        };
        let port = match port {
            Some(p) => p,
            None => String::from_str("8080"),
        };
        Ok(Config { database_url, ip_address, jwt_secret, port })
    }

    /// The address the server listens on: `<ip_address>:<port>`.
    pub fn socket_address(&self) -> (s: String)
        ensures
            s@ == self.ip_address@ + ":"@ + self.port@,
    {
        let mut s = self.ip_address.clone();
        s.append(":");
        s.append(self.port.as_str());
        s
    }
}

} // verus!

verus! {

/// The rate limiter refills one request slot per this many seconds.
pub const RATE_LIMIT_PERIOD_SECS: u64 = 1;

/// The rate limiter admits bursts of up to this many requests.
pub const RATE_LIMIT_BURST: u32 = 5;

} // verus!
