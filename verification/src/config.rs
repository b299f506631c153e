//! The bot's settings, as read from its environment.

use vstd::prelude::*;

verus! {

/// Where the database lives when no location is configured.
pub open spec fn default_database_url() -> Seq<char> {
    "sqlite:data.db?mode=rwc"@
}

/// The bot's settings.
#[derive(Debug, Clone)]
pub struct Config {
    pub discord_token: String,
    pub database_url: String,
    pub roblox_cookie: Option<String>,
    pub ipinfo_token: Option<String>,
    pub abuseipdb_token: Option<String>,
}

/// Why the settings cannot be assembled.
#[derive(Debug, Clone, Copy, PartialEq, Eq)]
pub enum ConfigError {
    /// No Discord token was given.
    MissingDiscordToken,
}

impl ConfigError {
    /// The message the bot stops with.
    pub fn message(&self) -> (m: String)
        ensures
            m@ == "DISCORD_TOKEN must be set"@,
    {
        let mut m = String::new();
        m.append("DISCORD_TOKEN must be set");
        m
    }
}

impl Config {
    /// Assembles the settings from the values of `DISCORD_TOKEN`,
    /// `DATABASE_URL`, `ROBLOX_COOKIE`, `IPINFO_TOKEN` and `ABUSEIPDB_TOKEN`
    /// (`None` for a variable that is not set). The Discord token is required;
    /// the database location falls back to a local SQLite file.
    pub fn from_values(
        discord_token: Option<String>,
        database_url: Option<String>,
        roblox_cookie: Option<String>,
        ipinfo_token: Option<String>,
        abuseipdb_token: Option<String>,
    ) -> (r: Result<Config, ConfigError>)
        ensures
            discord_token is None <==> r == Err::<Config, ConfigError>(ConfigError::MissingDiscordToken),
            r matches Ok(c) ==> {
                &&& Some(c.discord_token) == discord_token
                &&& c.database_url@ == (match database_url {
                    Some(u) => u@,
                    None => default_database_url(),
                })
                &&& c.roblox_cookie == roblox_cookie
                &&& c.ipinfo_token == ipinfo_token
                &&& c.abuseipdb_token == abuseipdb_token
            },
    {
        match discord_token {
            None => Err(ConfigError::MissingDiscordToken),
            Some(token) => {
                let url = match database_url {
                    Some(u) => u,
                    None => {
                        let mut u = String::new();
                        u.append("sqlite:data.db?mode=rwc");
                        u
                    },
                };
                Ok(Config {
                    discord_token: token,
                    database_url: url,
                    roblox_cookie,
                    ipinfo_token,
                    abuseipdb_token,
                })
            },
        }
    }
}

} // verus!
