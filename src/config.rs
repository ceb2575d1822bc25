use vstd::prelude::*;

verus! {

/// The whole configuration, as loaded at start-up.
#[derive(Debug, Clone)]
pub struct AppConfig {
    pub log: LogConfig,
    pub inpay: InpayConfig,
    pub mail: MailConfig,
}

#[derive(Debug, Clone)]
pub struct LogConfig {
    pub path: String,
    pub mine_file: String,
    pub mine_file_level: String,
    pub mine_formatting_level: String,
    pub other_file: String,
    pub other_file_level: String,
    pub other_formatting_level: String,
    pub database_file: String,
    pub database_file_level: String,
    pub database_formatting_level: String,
    pub mine_target: String,
    pub database_target: String,
}

/// The mail account that outbound mail is sent through.
#[derive(Debug, Clone)]
pub struct MailConfig {
    pub username: String,
    pub password: String,
    pub host: String,
}

#[derive(Debug, Clone)]
pub struct InpayConfig {
    pub env: String,
    pub host: String,
    pub port: usize,
    pub db_url: String,
    pub redis_url: String,
    pub mq_url: String,
    pub access_secret: String,
    pub refresh_secret: String,
    pub access_secret_expiration: u32,
    pub refresh_secret_expiration: u32,
}

} // verus!
