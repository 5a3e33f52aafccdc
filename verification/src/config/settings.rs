use vstd::prelude::*;

use super::postgres_config::PostgresConfig;
use super::rabbitmq_config::RabbitmqConfig;
use super::redis_config::RedisConfig;
use super::server_config::ServerConfig;

verus! {

/// The whole service configuration.
pub struct Settings {
    pub server: ServerConfig,
    pub rabbit: RabbitmqConfig,
    pub redis: RedisConfig,
    pub postgres: PostgresConfig,
}

/// Every section of the default configuration.
pub open spec fn is_default_settings(s: Settings) -> bool {
    &&& s.server.host@ == "localhost"@
    &&& s.server.port == 8080
    &&& s.rabbit.host@ == "localhost"@
    &&& s.rabbit.port == 5672
    &&& s.rabbit.user.deep_view() == Some("guest"@)
    &&& s.rabbit.password.deep_view() == Some("guest"@)
    &&& s.rabbit.queue_name.deep_view() == Some("people-queue"@)
    &&& s.redis.host@ == "localhost"@
    &&& s.redis.port == 6379
    &&& s.redis.user is None
    &&& s.redis.password is None
    &&& s.redis.db == Some(1u8)
    &&& s.postgres.host@ == "localhost"@
    &&& s.postgres.port == 5432
    &&& s.postgres.user@ == "postgres"@
    &&& s.postgres.password@ == "postgres"@
    &&& s.postgres.db_name@ == "person_db"@
    &&& s.postgres.pool_size == 30
    &&& s.postgres.idle_timeout == 60
    &&& s.postgres.acquire_timeout == 30
}

impl Default for Settings {
    /// Each section at its own default.
    fn default() -> (settings: Self)
        ensures
            is_default_settings(settings),
    {
        Settings {
            server: ServerConfig::default(),
            rabbit: RabbitmqConfig::default(),
            redis: RedisConfig::default(),
            postgres: PostgresConfig::default(),
        }
    }
}

impl Settings {
    /// Settings from what the environment yielded: the deserialized settings
    /// when the environment could be read into them, the defaults otherwise.
    pub fn new(deserialized: Option<Settings>) -> (settings: Settings)
        ensures
            deserialized is Some ==> settings == deserialized->0,
            deserialized is None ==> is_default_settings(settings),
    {
        match deserialized {
            Some(settings) => settings,
            None => Settings::default(),
        }
    }
}

} // verus!
