use crs::functions::parse_remote_app_server_endpoint::{
    endpoint_from_url, parse_remote_app_server_endpoint, ParseRemoteAppServerEndpointError, ParsedUrl, RemoteAppServerEndpoint,
};

fn websocket_url(input: &str) -> String {
    match parse_remote_app_server_endpoint(input) {
        Ok(RemoteAppServerEndpoint::WebSocket { websocket_url, auth_token }) => {
            assert!(auth_token.is_none());
            websocket_url
        }
        other => panic!("expected a web socket for {input}: {other:?}"),
    }
}

fn socket_path(input: &str) -> String {
    match parse_remote_app_server_endpoint(input) {
        Ok(RemoteAppServerEndpoint::UnixSocket { socket_path }) => socket_path,
        other => panic!("expected a Unix socket for {input}: {other:?}"),
    }
}

#[test]
fn websocket_urls_are_kept_as_serialized() {
    assert_eq!(websocket_url("ws://127.0.0.1:4500"), "ws://127.0.0.1:4500/");
    assert_eq!(websocket_url("wss://example.com/app?x=1"), "wss://example.com/app?x=1");
}

#[test]
fn unix_locator_with_absolute_path() {
    assert_eq!(socket_path("unix:///tmp/codex.sock"), "/tmp/codex.sock");
    assert_eq!(socket_path("unix:///run/a b"), "/run/a b");
}

#[test]
fn unix_locator_errors() {
    for input in ["unix://", "unix://host/tmp/sock", "unix:///tmp/sock?x=1", "unix:/tmp/sock", "unix://relative", "unix:///tmp/a\0b"] {
        assert!(
            matches!(parse_remote_app_server_endpoint(input), Err(ParseRemoteAppServerEndpointError::UnixLocatorInvalid { .. })),
            "{input}"
        );
    }
}

#[test]
fn credentials_fragments_and_schemes_are_refused() {
    assert!(matches!(
        parse_remote_app_server_endpoint("ws://user:secret@example.com"),
        Err(ParseRemoteAppServerEndpointError::CredentialsInvalid {})
    ));
    assert!(matches!(
        parse_remote_app_server_endpoint("ws://user@example.com"),
        Err(ParseRemoteAppServerEndpointError::CredentialsInvalid {})
    ));
    match parse_remote_app_server_endpoint("ws://example.com/#part") {
        Err(ParseRemoteAppServerEndpointError::FragmentInvalid { url }) => assert_eq!(url.fragment.as_deref(), Some("part")),
        other => panic!("{other:?}"),
    }
    match parse_remote_app_server_endpoint("http://example.com") {
        Err(ParseRemoteAppServerEndpointError::SchemeInvalid { url }) => {
            assert_eq!(url.scheme, "http");
            assert_eq!(url.serialization, "http://example.com/");
        }
        other => panic!("{other:?}"),
    }
}

#[test]
fn unparsable_input_reports_the_input() {
    match parse_remote_app_server_endpoint("no scheme here") {
        Err(ParseRemoteAppServerEndpointError::ParseFailed { input, .. }) => assert_eq!(input, "no scheme here"),
        other => panic!("{other:?}"),
    }
}

fn parsed(scheme: &str, serialization: &str) -> ParsedUrl {
    ParsedUrl {
        serialization: serialization.to_string(),
        scheme: scheme.to_string(),
        username: String::new(),
        password: None,
        has_host: false,
        port: None,
        query: None,
        fragment: None,
    }
}

#[test]
fn endpoint_decision_on_given_parts() {
    let url = parsed("unix", "unix:///s");
    assert!(matches!(
        endpoint_from_url("unix:///s", url.clone(), true),
        Ok(RemoteAppServerEndpoint::UnixSocket { ref socket_path }) if socket_path == "/s"
    ));
    assert!(matches!(
        endpoint_from_url("unix:///s", url.clone(), false),
        Err(ParseRemoteAppServerEndpointError::UnixLocatorInvalid { .. })
    ));
    let mut with_port = url.clone();
    with_port.port = Some(80);
    assert!(matches!(
        endpoint_from_url("unix:///s", with_port, true),
        Err(ParseRemoteAppServerEndpointError::UnixLocatorInvalid { .. })
    ));
    let mut with_password = parsed("wss", "wss://h/");
    with_password.password = Some(String::new());
    assert!(matches!(
        endpoint_from_url("wss://h/", with_password, true),
        Err(ParseRemoteAppServerEndpointError::CredentialsInvalid {})
    ));
    assert!(matches!(
        endpoint_from_url("wss://h/", parsed("wss", "wss://h/"), false),
        Ok(RemoteAppServerEndpoint::WebSocket { ref websocket_url, auth_token: None }) if websocket_url == "wss://h/"
    ));
    assert!(matches!(
        endpoint_from_url("Ws://h/", parsed("WS", "Ws://h/"), false),
        Err(ParseRemoteAppServerEndpointError::SchemeInvalid { .. })
    ));
}
