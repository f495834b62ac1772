use starter::config::{
    listening_line, ServerConfig, BIND_HOST, DEFAULT_PORT, LISTENING_PREFIX, PORT_VARIABLE,
};
use starter::routes::{GREET_ROUTE, HOME_ROUTE, STATIC_DIR, STATIC_ROUTE, TEMPLATE_DIR};

#[test]
fn port_defaults_when_the_variable_is_not_set() {
    let config = ServerConfig::from_variable(None);
    assert_eq!(config.port, "4000");
    assert_eq!(config.port, DEFAULT_PORT);
}

#[test]
fn port_is_taken_from_the_variable() {
    let config = ServerConfig::from_variable(Some(String::from("8080")));
    assert_eq!(config.port, "8080");
}

#[test]
fn port_is_not_checked() {
    let config = ServerConfig::from_variable(Some(String::from("not a port")));
    assert_eq!(config.port, "not a port");
    assert_eq!(config.bind_address(), "0.0.0.0:not a port");
    let empty = ServerConfig::from_variable(Some(String::new()));
    assert_eq!(empty.port, "");
    assert_eq!(empty.bind_address(), "0.0.0.0:");
}

#[test]
fn bind_address_is_every_interface_at_the_port() {
    assert_eq!(ServerConfig::from_variable(None).bind_address(), "0.0.0.0:4000");
    let config = ServerConfig { port: String::from("3000") };
    assert_eq!(config.bind_address(), "0.0.0.0:3000");
    assert_eq!(config.bind_address(), format!("{}:{}", BIND_HOST, config.port));
}

#[test]
fn listening_line_announces_the_address() {
    assert_eq!(listening_line("0.0.0.0:4000"), "listening on 0.0.0.0:4000");
    assert_eq!(listening_line(""), LISTENING_PREFIX);
    let address = ServerConfig::from_variable(Some(String::from("9"))).bind_address();
    assert_eq!(listening_line(&address), "listening on 0.0.0.0:9");
}

#[test]
fn names_of_variable_routes_and_directories() {
    assert_eq!(PORT_VARIABLE, "PORT");
    assert_eq!(HOME_ROUTE, "/");
    assert_eq!(GREET_ROUTE, "/api/greet");
    assert_eq!(STATIC_ROUTE, "/static");
    assert_eq!(STATIC_DIR, "static");
    assert_eq!(TEMPLATE_DIR, "templates");
}
