//! Application configuration: plain settings records and the few derived
//! values the service computes from them. Reading the environment happens
//! outside the library; it hands a finished `AppConfig` in.

use vstd::prelude::*;

use crate::text::{push_char, render_decimal, spec_decimal};

verus! {

#[derive(Debug, Clone)]
pub struct AppConfig {
    pub server: ServerConfig,
    pub database: DatabaseConfig,
    pub redis: RedisConfig,
    pub auth: AuthConfig,
    pub external: ExternalServicesConfig,
    pub instance: InstanceConfig,
}

#[derive(Debug, Clone)]
pub struct ServerConfig {
    pub host: String,
    pub port: u16,
    pub environment: Environment,
}

#[derive(Debug, Clone)]
pub struct DatabaseConfig {
    pub url: String,
    pub name: String,
    pub max_connections: u32,
    pub min_connections: u32,
    pub connection_timeout_seconds: u64,
}

#[derive(Debug, Clone)]
pub struct RedisConfig {
    pub url: String,
    pub max_connections: u32,
    pub connection_timeout_seconds: u64,
}

#[derive(Debug, Clone)]
pub struct AuthConfig {
    pub jwt_secret: String,
    pub jwt_expiration_hours: i64,
    pub otp_expiration_minutes: i64,
}

#[derive(Debug, Clone)]
pub struct ExternalServicesConfig {
    pub fcm: FcmConfig,
    pub baray: BarayConfig,
    pub selendra: SelendraConfig,
}

#[derive(Debug, Clone)]
pub struct FcmConfig {
    pub server_key: String,
    pub sender_id: String,
    pub fcm_url: String,
}

#[derive(Debug, Clone)]
pub struct BarayConfig {
    pub api_key: String,
    pub webhook_secret: String,
    pub base_url: String,
}

#[derive(Debug, Clone)]
pub struct SelendraConfig {
    pub rpc_url: String,
    pub private_key: String,
    pub token_contract_address: String,
}

#[derive(Debug, Clone)]
pub struct InstanceConfig {
    pub id: String,
    pub region: String,
    pub zone: Option<String>,
}

#[derive(Debug, Clone, Copy, PartialEq, Eq, Structural)]
pub enum Environment {
    Development,
    Staging,
    Production,
}

impl AppConfig {
    /// Check if we're in development mode.
    pub fn is_development(&self) -> (r: bool)
        ensures
            r == (self.server.environment is Development),
    {
        matches!(self.server.environment, Environment::Development)
    }

    /// Check if we're in production mode.
    pub fn is_production(&self) -> (r: bool)
        ensures
            r == (self.server.environment is Production),
    {
        matches!(self.server.environment, Environment::Production)
    }

    /// The `host:port` address the server binds to.
    pub fn bind_address(&self) -> (r: String)
        ensures
            r@ == self.server.host@ + ":"@ + spec_decimal(self.server.port as int),
    {
        let mut r = self.server.host.clone();
        push_char(&mut r, ':');
        let digits = render_decimal(self.server.port as u64);
        r.append(digits.as_str());
        proof {
            reveal_strlit(":");
            assert(r@ =~= self.server.host@ + ":"@ + spec_decimal(self.server.port as int));
        }
        r
    }
}

} // verus!
