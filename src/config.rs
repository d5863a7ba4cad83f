use vstd::prelude::*;

verus! {

/// Connection values for the time-series database.
#[derive(Debug)]
pub struct DbSettings {
    pub user: String,
    pub password: String,
    pub database: String,
    pub address: String,
}

/// A required configuration value that was not supplied.
#[derive(Clone, Copy, Debug, PartialEq, Eq, Structural)]
pub enum ConfigError {
    MissingUser,
    MissingPassword,
    MissingDatabase,
    MissingAddress,
}

/// The sentence that names a missing value.
pub open spec fn message_of(e: ConfigError) -> Seq<char> {
    match e {
        ConfigError::MissingUser => "the database user is not configured"@,
        ConfigError::MissingPassword => "the database password is not configured"@,
        ConfigError::MissingDatabase => "the database name is not configured"@,
        ConfigError::MissingAddress => "the database address is not configured"@,
    }
}

impl ConfigError {
    /// A sentence naming the missing value.
    pub fn message(&self) -> (r: &'static str)
        ensures
            r@ == message_of(*self),
    {
        match self {
            ConfigError::MissingUser => "the database user is not configured",
            ConfigError::MissingPassword => "the database password is not configured",
            ConfigError::MissingDatabase => "the database name is not configured",
            ConfigError::MissingAddress => "the database address is not configured",
        }
    }
}

/// The identity used when the operator supplies none.
pub open spec fn default_device_id() -> Seq<char> {
    "Default ID"@
}

/// The device identity: the supplied one, or `Default ID`.
pub fn device_id_or_default(supplied: Option<String>) -> (r: String)
    ensures
        r@ == match supplied {
            Some(s) => s@,
            None => default_device_id(),
        },
{
    match supplied {
        Some(s) => s,
        None => "Default ID".to_owned(),
    }
}

/// The first required value that is missing, checked in the order user,
/// password, database name, address.
pub open spec fn first_missing(
    user: Option<String>,
    password: Option<String>,
    database: Option<String>,
    address: Option<String>,
) -> Option<ConfigError> {
    if user is None {
        Some(ConfigError::MissingUser)
    } else if password is None {
        Some(ConfigError::MissingPassword)
    } else if database is None {
        Some(ConfigError::MissingDatabase)
    } else if address is None {
        Some(ConfigError::MissingAddress)
    } else {
        None
    }
}

impl DbSettings {
    /// Collects the four required values; fails naming the first one missing.
    pub fn from_values(
        user: Option<String>,
        password: Option<String>,
        database: Option<String>,
        address: Option<String>,
    ) -> (r: Result<DbSettings, ConfigError>)
        ensures
            match first_missing(user, password, database, address) {
                Some(e) => r == Err::<DbSettings, ConfigError>(e),
                None => r matches Ok(s) && s.user@ == user->0@ && s.password@ == password->0@
                    && s.database@ == database->0@ && s.address@ == address->0@,
            },
    {
        match (user, password, database, address) {
            (Some(user), Some(password), Some(database), Some(address)) => Ok(
                DbSettings { user, password, database, address },
            ),
            (None, _, _, _) => Err(ConfigError::MissingUser),
            (_, None, _, _) => Err(ConfigError::MissingPassword),
            (_, _, None, _) => Err(ConfigError::MissingDatabase),
            (_, _, _, None) => Err(ConfigError::MissingAddress),
        }
    }
}

} // verus!
