use shell_controller::endpoint::{resolve, BuildMode, Endpoint, DEVELOPMENT_URL, PRODUCTION_URL};
use shell_controller::window::{
    main_window, Visibility, WindowOp, MAIN_WINDOW_LABEL, WINDOW_HEIGHT, WINDOW_TITLE,
    WINDOW_WIDTH,
};

#[test]
fn debug_build_resolves_to_local_dev_server() {
    let endpoint = resolve(BuildMode::Debug);
    assert_eq!(endpoint, Endpoint::Development);
    assert_eq!(endpoint.url(), "http://localhost:3000/");
}

#[test]
fn release_build_resolves_to_live_site() {
    let endpoint = resolve(BuildMode::Release);
    assert_eq!(endpoint, Endpoint::Production);
    assert_eq!(endpoint.url(), "https://www.jortaskmanager.com/");
}

#[test]
fn endpoints_are_distinct() {
    assert_ne!(Endpoint::Development, Endpoint::Production);
    assert_ne!(Endpoint::Development.url(), Endpoint::Production.url());
    assert_ne!(resolve(BuildMode::Debug).url(), resolve(BuildMode::Release).url());
}

#[test]
fn resolve_returns_one_of_the_two_endpoints() {
    for mode in [BuildMode::Debug, BuildMode::Release] {
        let url = resolve(mode).url();
        assert!(url == DEVELOPMENT_URL || url == PRODUCTION_URL);
    }
}

#[test]
fn resolve_is_stable() {
    assert_eq!(resolve(BuildMode::Debug), resolve(BuildMode::Debug));
    assert_eq!(resolve(BuildMode::Release), resolve(BuildMode::Release));
}

#[test]
fn production_url_keeps_trailing_slash() {
    assert!(PRODUCTION_URL.ends_with('/'));
    assert!(PRODUCTION_URL.starts_with("https://"));
}

#[test]
fn built_in_addresses_are_well_formed() {
    assert!(Endpoint::Development.is_well_formed());
    assert!(Endpoint::Production.is_well_formed());
}

#[test]
fn built_in_addresses_parse_to_themselves() {
    for endpoint in [Endpoint::Development, Endpoint::Production] {
        let parsed = url::Url::parse(endpoint.url()).unwrap();
        assert_eq!(parsed.as_str(), endpoint.url());
    }
}

#[test]
fn development_address_is_loopback_on_port_3000() {
    let parsed = url::Url::parse(Endpoint::Development.url()).unwrap();
    assert_eq!(parsed.scheme(), "http");
    assert_eq!(parsed.host_str(), Some("localhost"));
    assert_eq!(parsed.port(), Some(3000));
}

#[test]
fn main_window_has_fixed_name_title_and_size() {
    let config = main_window(Endpoint::Production);
    assert_eq!(config.label, "main");
    assert_eq!(config.title, "JOR Task Manager");
    assert_eq!(config.width, 1100);
    assert_eq!(config.height, 750);
    assert_eq!(config.endpoint, Endpoint::Production);
    assert_eq!(config.label, MAIN_WINDOW_LABEL);
    assert_eq!(config.title, WINDOW_TITLE);
    assert_eq!((config.width, config.height), (WINDOW_WIDTH, WINDOW_HEIGHT));
}

#[test]
fn main_window_loads_the_endpoint_it_is_given() {
    assert_eq!(main_window(Endpoint::Development).endpoint, Endpoint::Development);
    assert_eq!(main_window(Endpoint::Production).endpoint, Endpoint::Production);
}

#[test]
fn show_makes_a_hidden_window_visible() {
    assert_eq!(Visibility::Hidden.apply(WindowOp::Show), Visibility::Visible);
}

#[test]
fn show_leaves_a_visible_window_visible() {
    assert_eq!(Visibility::Visible.apply(WindowOp::Show), Visibility::Visible);
}

#[test]
fn focus_does_not_change_visibility() {
    assert_eq!(Visibility::Hidden.apply(WindowOp::Focus), Visibility::Hidden);
    assert_eq!(Visibility::Visible.apply(WindowOp::Focus), Visibility::Visible);
}
