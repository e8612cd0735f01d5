use wekan_cli::client::{Client, LoginClient};
use wekan_cli::command::{parse_login_host, HostSetting};
use wekan_cli::config::{api_path, UserConfig};
use wekan_cli::validation::Token;

#[test]
fn new_config() {
    let config = UserConfig::new();
    assert_eq!(config.get_address(), "http://localhost:8080");
}

#[test]
fn get_user_id_no_id() {
    let mut config = UserConfig::new();
    config.set_token(Token {
        id: String::from("123"),
        token: String::from("yNa1VR1Cz6nTzNirWPm2dRNYjdu-EM6LxKDIT0pIYsi"),
        token_expires: String::from("2022-08-30T19:37:47.170Z"),
    });
    assert_eq!(config.get_base_id(), "123");
}

#[test]
fn new_client() {
    let userconfig = UserConfig::new();
    let client = Client::new(userconfig);
    assert_eq!(
        client.get_artifacts_url(),
        "http://localhost:8080/api/boards/"
    );
}

#[test]
fn client_new_client() {
    assert_eq!(api_path(String::from("url")), "url/api/");
}

#[test]
fn login_client_api_address() {
    let client = LoginClient::new(UserConfig::new());
    assert_eq!(client.get_api_address(), "http://localhost:8080/api/");
}

#[test]
fn kind_clients_build_routes() {
    let c = Client::new_list_client(UserConfig::new(), "b1");
    assert_eq!(c.get_artifacts_url(), "http://localhost:8080/api/boards/b1/lists/");
    assert_eq!(c.get_base_id(), "b1");
    let c = Client::new_swimlane_client(UserConfig::new(), "b1");
    assert_eq!(c.get_artifact_url("s9"), "http://localhost:8080/api/boards/b1/swimlanes/s9");
    let c = Client::new_card_client(UserConfig::new(), "b1", "l2");
    assert_eq!(c.get_artifacts_url(), "http://localhost:8080/api/boards/b1/lists/l2/cards/");
    assert_eq!(c.get_base_id(), "b1l2");
    let c = Client::new_checklist_client(UserConfig::new(), "b1", "c3");
    assert_eq!(c.get_artifacts_url(), "http://localhost:8080/api/boards/b1/cards/c3/checklists/");
    let boards = Client::user_boards_base("u7");
    assert_eq!(boards, "users/u7/boards");
}

#[test]
fn negative_port_is_rendered_with_sign() {
    let mut config = UserConfig::new();
    config.set_port(-1);
    assert_eq!(config.get_address(), "http://localhost:-1");
}

#[test]
fn login_host_bare_port() {
    match parse_login_host("8080", true).unwrap() {
        HostSetting::Port(p) => assert_eq!(p, 8080),
        other => panic!("unexpected setting: {:?}", other),
    }
}

#[test]
fn login_host_bare_name_means_localhost() {
    match parse_login_host("myserver", true).unwrap() {
        HostSetting::Host(h) => assert_eq!(h, "http://localhost"),
        other => panic!("unexpected setting: {:?}", other),
    }
}

#[test]
fn login_host_host_and_port() {
    match parse_login_host("myserver:123", false).unwrap() {
        HostSetting::Both { host, port } => {
            assert_eq!(host, "https://myserver");
            assert_eq!(port, 123);
        }
        other => panic!("unexpected setting: {:?}", other),
    }
}

#[test]
fn login_host_overflowing_port_is_an_error() {
    assert!(parse_login_host("99999", true).is_err());
    assert!(matches!(
        parse_login_host("", true),
        Ok(HostSetting::Unchanged)
    ));
}

#[test]
fn store_token_returns_the_token() {
    let mut config = UserConfig::new();
    let t = config.store_token(Token {
        id: String::from("u"),
        token: String::from("fake-token-value"),
        token_expires: String::from("2022-08-30T19:37:47.170Z"),
    });
    assert_eq!(t.id, "u");
    assert_eq!(config.get_token(), "fake-token-value");
}
