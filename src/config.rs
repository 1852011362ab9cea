//! Settings of a deployment: where the services are, the secrets, and how
//! the bot is addressed.
use vstd::prelude::*;

verus! {

/// All settings.
#[derive(Clone)]
pub struct Config {
    pub server: ServerConfig,
    pub crater: CraterConfig,
    pub platforms: PlatformsConfig,
    pub bot: BotConfig,
}

/// Where the relay listens.
#[derive(Clone, Debug)]
pub struct ServerConfig {
    pub host: String,
    pub port: u16,
}

/// The orchestration service: its address, its token, the base address of
/// this relay that callbacks are sent to, and the secret callbacks carry.
#[derive(Clone)]
pub struct CraterConfig {
    pub api_url: String,
    pub api_token: String,
    pub callback_base_url: String,
    pub callback_secret: String,
}

/// The code-hosting platforms, each one optional.
#[derive(Clone)]
pub struct PlatformsConfig {
    pub gitcode: Option<PlatformConfig>,
    pub github: Option<PlatformConfig>,
    pub gitee: Option<PlatformConfig>,
}

/// One code-hosting platform: its API, the token to post with, and the
/// secret that its webhooks carry.
#[derive(Clone)]
pub struct PlatformConfig {
    pub enabled: bool,
    pub api_url: String,
    pub access_token: String,
    pub webhook_secret: String,
}

/// How the bot presents itself and what experiments it asks for.
#[derive(Clone, Debug)]
pub struct BotConfig {
    pub name: String,
    pub trigger_prefix: String,
    pub default_mode: String,
    pub default_crate_select: String,
}

} // verus!
