use careful_resume::endpoint::{
    choose_peer, url_authority, Endpoint, EndpointError, UrlParts,
};

#[test]
fn a_url_names_its_server() {
    let e = Endpoint::from_url("https://example.com:8443/10MB.bin?x=1#y").unwrap();
    assert_eq!(e.host, "example.com");
    assert_eq!(e.port, 8443);
    assert_eq!(e.authority, "example.com:8443");
    assert_eq!(e.path, "/10MB.bin");
}

#[test]
fn the_scheme_gives_the_port_where_none_is_named() {
    let e = Endpoint::from_url("https://EXAMPLE.com").unwrap();
    assert_eq!(e.authority, "example.com:443");
    assert_eq!(e.path, "/");
    let e = Endpoint::from_url("https://[2001:db8::1]/").unwrap();
    assert_eq!(e.authority, "[2001:db8::1]:443");
}

#[test]
fn a_text_that_names_no_server_is_refused() {
    assert!(matches!(
        Endpoint::from_url("not a url"),
        Err(EndpointError::NotAUrl(reason)) if reason == "relative URL without a base"
    ));
    assert!(matches!(
        Endpoint::from_url("https://h:99999/"),
        Err(EndpointError::NotAUrl(reason)) if reason == "invalid port number"
    ));
    assert!(matches!(Endpoint::from_url(""), Err(EndpointError::NotAUrl(_))));
    assert!(matches!(Endpoint::from_url("data:text/plain,x"), Err(EndpointError::NoHost)));
    assert!(matches!(Endpoint::from_url("foo://example.com/"), Err(EndpointError::NoPort)));
}

#[test]
fn parts_name_a_server_if_host_and_port_are_there() {
    let parts = |host: Option<&str>, port| UrlParts {
        host: host.map(|h| h.to_string()),
        port,
        path: "/p".to_string(),
    };
    let e = Endpoint::from_parts(parts(Some("h"), Some(1))).unwrap();
    assert_eq!((e.host, e.port, e.authority, e.path), (
        "h".to_string(),
        1,
        "h:1".to_string(),
        "/p".to_string(),
    ));
    assert!(matches!(Endpoint::from_parts(parts(None, None)), Err(EndpointError::NoHost)));
    assert!(matches!(Endpoint::from_parts(parts(None, Some(1))), Err(EndpointError::NoHost)));
    assert!(matches!(Endpoint::from_parts(parts(Some("h"), None)), Err(EndpointError::NoPort)));
}

#[test]
fn the_authority_is_host_colon_port() {
    for port in [0u16, 9, 10, 80, 443, 8443, 65535] {
        assert_eq!(url_authority(&"host".to_string(), port), format!("{}:{}", "host", port));
    }
}

#[test]
fn authorities_tell_servers_apart() {
    assert_ne!(url_authority(&"a".to_string(), 12), url_authority(&"a:1".to_string(), 2));
    assert_ne!(url_authority(&"a".to_string(), 80), url_authority(&"b".to_string(), 80));
    assert_ne!(url_authority(&"a".to_string(), 80), url_authority(&"a".to_string(), 81));
}

#[test]
fn a_peer_is_chosen_among_those_given() {
    assert_eq!(choose_peer::<u32>(&[]), None);
    assert_eq!(choose_peer(&[7u32]), Some(7));
    let peers = [1u32, 2, 3];
    let mut seen = [false; 3];
    for _ in 0..1000 {
        let peer = choose_peer(&peers).unwrap();
        seen[peer as usize - 1] = true;
    }
    assert_eq!(seen, [true; 3]);
}
