use vstd::prelude::*;

verus! {

/// Everything the bot is told before it starts.
#[derive(Debug, Clone)]
pub struct ConfigToml {
    pub bot: BotConfig,
    pub tg_app: Application,
    pub auth: AuthCredentials,
    pub tracing: Tracing,
    pub postgres: DatabaseConfig,
}

/// Where the database is and how to get in.
#[derive(Debug, Clone)]
pub struct DatabaseConfig {
    pub username: String,
    pub password: String,
    pub host: String,
    pub port: String,
    pub db: String,
}

/// The bot's token.
#[derive(Debug, Clone)]
pub struct BotConfig {
    pub bot_token: String,
}

/// The Telegram application in whose name the bot asks who owns a pack.
#[derive(Debug, Clone)]
pub struct Application {
    pub api_id: i32,
    pub api_hash: String,
}

/// The account that the Telegram application signs in with.
#[derive(Debug, Clone)]
pub struct AuthCredentials {
    pub phone_number: String,
    pub password: String,
}

/// How much the bot logs.
#[derive(Debug, Clone)]
pub struct Tracing {
    pub log_level: String,
}

/// The address of the database `postgres`.
pub open spec fn postgres_url(postgres: DatabaseConfig) -> Seq<char> {
    "postgres://"@ + postgres.username@ + ":"@ + postgres.password@ + "@"@ + postgres.host@ + ":"@
        + postgres.port@ + "/"@ + postgres.db@
}

impl ConfigToml {
    /// The address under which the database is reached.
    pub fn get_postgres_url(&self) -> (url: String)
        ensures
            url@ == postgres_url(self.postgres),
    {
        let postgres: &DatabaseConfig = &self.postgres;

        let mut url: String = String::from_str("postgres://");
        url.append(postgres.username.as_str());
        url.append(":");
        url.append(postgres.password.as_str());
        url.append("@");
        url.append(postgres.host.as_str());
        url.append(":");
        url.append(postgres.port.as_str());
        url.append("/");
        url.append(postgres.db.as_str());
        url
    }
}

} // verus!
