use ocpp_server::config::{Config, ServerConfig};
use ocpp_server::error::Error;
use ocpp_server::user::{login_decision, Entry};
use ocpp_server::ws_basic_auth::{ws_basic_auth, AuthOutcome};

fn config_with_users(users: Vec<&str>) -> Config {
    Config {
        server: ServerConfig {
            host: String::from("localhost"),
            port: 5000,
            heartbeat_interval: 60,
            use_tls: false,
            time_offset: 0,
            ocpp_auth_password: String::from("secret"),
        },
        users: users.into_iter().map(String::from).collect(),
    }
}

#[test]
fn station_auth_accepts_matching_credentials() {
    // "STN-1:secret" in base64.
    let header = "Basic U1ROLTE6c2VjcmV0";
    assert_eq!(
        ws_basic_auth("STN-1", "secret", Some(header)),
        AuthOutcome::Authorized
    );
}

#[test]
fn station_auth_rejects_wrong_password() {
    // "STN-1:wrong" in base64.
    let header = "Basic U1ROLTE6d3Jvbmc=";
    assert_eq!(
        ws_basic_auth("STN-1", "secret", Some(header)),
        AuthOutcome::WrongCredentials
    );
}

#[test]
fn station_auth_rejects_wrong_user() {
    // "other:secret" in base64.
    let header = "Basic b3RoZXI6c2VjcmV0";
    assert_eq!(
        ws_basic_auth("STN-1", "secret", Some(header)),
        AuthOutcome::WrongCredentials
    );
}

#[test]
fn station_auth_missing_or_broken_header_is_bad_request() {
    assert_eq!(ws_basic_auth("STN-1", "secret", None), AuthOutcome::BadRequest);
    assert_eq!(
        ws_basic_auth("STN-1", "secret", Some("Bearer token")),
        AuthOutcome::BadRequest
    );
    assert_eq!(
        ws_basic_auth("STN-1", "secret", Some("nonsense")),
        AuthOutcome::BadRequest
    );
}

#[test]
fn station_auth_disabled_with_empty_password() {
    assert_eq!(ws_basic_auth("STN-1", "", None), AuthOutcome::Authorized);
}

#[test]
fn allow_list_membership() {
    let config = config_with_users(vec!["sarah", "tom"]);
    assert!(config.user_allowed(&String::from("sarah")));
    assert!(!config.user_allowed(&String::from("mallory")));
}

#[test]
fn login_strips_quotes_before_lookup() {
    let config = config_with_users(vec!["sarah"]);
    let user = login_decision(&config, &Entry { login_id: String::from("\"sarah\"") });
    assert_eq!(user.id, "sarah");
    assert!(user.allowed);
    let user = login_decision(&config, &Entry { login_id: String::from("eve") });
    assert_eq!(user.id, "eve");
    assert!(!user.allowed);
}

#[test]
fn default_config_is_empty() {
    let config = Config::default();
    assert_eq!(config.server.host, "");
    assert_eq!(config.server.port, 0);
    assert!(!config.server.use_tls);
    assert!(config.users.is_empty());
}

#[test]
fn error_body_is_json() {
    let e = Error { message: String::from("Unable to get list of chargers"), status: 500 };
    assert_eq!(e.error_body(), "{\"error\":\"Unable to get list of chargers\"}");
}
