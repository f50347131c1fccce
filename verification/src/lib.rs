pub mod charger_client;
pub mod clock;
pub mod config;
pub mod error;
pub mod json;
pub mod logs;
pub mod messages;
pub mod models;
pub mod schema;
pub mod server;
pub mod strutil;
pub mod user;
pub mod webclient;
pub mod ws_basic_auth;
