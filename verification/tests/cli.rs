use web_search_mcp::cli::{parse_port, PortError};

fn args(list: &[&str]) -> Vec<String> {
    list.iter().map(|s| s.to_string()).collect()
}

#[test]
fn default_port_is_3000() {
    assert_eq!(parse_port(&args(&["server"])), Ok(3000));
    assert_eq!(parse_port(&args(&[])), Ok(3000));
}

#[test]
fn port_options_last_wins() {
    assert_eq!(parse_port(&args(&["server", "-p", "8080"])), Ok(8080));
    assert_eq!(parse_port(&args(&["server", "--port", "80", "-p", "81"])), Ok(81));
}

#[test]
fn port_errors() {
    assert_eq!(parse_port(&args(&["server", "-p", "70000"])), Err(PortError::InvalidPort("70000".to_string())));
    assert_eq!(parse_port(&args(&["server", "-p"])), Err(PortError::MissingValue));
    let e = parse_port(&args(&["server", "-x"])).unwrap_err();
    assert_eq!(
        e.messages(),
        vec!["Unknown option: -x".to_string(), "Usage: server [-p <port>] [--port <port>]".to_string()]
    );
    assert_eq!(PortError::MissingValue.messages(), vec!["Option -p requires a port number".to_string()]);
    assert_eq!(
        PortError::InvalidPort("x".to_string()).messages(),
        vec!["Invalid port number: x".to_string()]
    );
}
