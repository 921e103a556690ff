use vstd::prelude::*;

verus! {

/// The port served on when the environment names none.
pub const DEFAULT_PORT: u16 = 3000;

/// Settings of the process, as read from the environment.
#[derive(Clone, Debug, PartialEq, Eq)]
pub struct Config {
    pub port: u16,
    pub database_url: Option<String>,
}

/// The port served on when the environment names none.
pub fn default_port() -> (r: u16)
    ensures
        r == DEFAULT_PORT,
{
    DEFAULT_PORT
}

/// The port that a `PORT` setting selects: its low sixteen bits, or the
/// default port where no integer was given.
pub open spec fn port_from(port: Option<i64>) -> u16 {
    match port {
        Some(v) => v as u16,
        None => DEFAULT_PORT,
    }
}

impl Config {
    /// Builds the configuration from what the environment gave for `PORT`
    /// (`None` where it is absent or not an integer) and for `DATABASE_URL`.
    pub fn from_env(port: Option<i64>, database_url: Option<String>) -> (r: Config)
        ensures
            r.port == port_from(port),
            r.database_url == database_url,
    {
        let p: u16 = match port {
            Some(v) => v as u16,
            None => default_port(),
        };
        Config { port: p, database_url }
    }
}

} // verus!
