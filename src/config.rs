use vstd::prelude::*;

verus! {

/// Settings of the service, read from the environment at start-up.
#[derive(Debug, Clone)]
pub struct Config {
    pub port: u16,
    pub database_url: String,
    pub app_name: String,
    pub jwt_secret: String,
    pub google_client_id: String,
    pub google_client_secret: String,
    pub discord_client_id: String,
    pub discord_client_secret: String,
    pub smtp: SmtpConfig,
    pub frontend_url: String,
    pub backend_url: String,
}

/// Settings of the outgoing mail transport.
#[derive(Debug, Clone)]
pub struct SmtpConfig {
    pub host: String,
    pub port: u16,
    pub username: String,
    pub password: String,
    pub from_email: String,
    pub from_name: String,
}

} // verus!
