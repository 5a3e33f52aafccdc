pub mod postgres_config;
pub mod rabbitmq_config;
pub mod redis_config;
pub mod server_config;
pub mod settings;
