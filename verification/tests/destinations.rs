use apub_delivery::urls::{is_url_text_str, Destination};

#[test]
fn test_try_new_accepts_wellformed_parts() {
    let d = Destination::try_new(
        "https".to_string(),
        "remote.example:8443".to_string(),
        "/u/bob/inbox".to_string(),
    )
    .expect("well-formed destination");
    assert_eq!(d.scheme, "https");
    assert_eq!(d.host, "remote.example:8443");
    assert_eq!(d.path, "/u/bob/inbox");
    assert_eq!(d.url_string(), "https://remote.example:8443/u/bob/inbox");
}

#[test]
fn test_try_new_rejects_bad_parts() {
    let bad_host_empty =
        Destination::try_new("https".to_string(), "".to_string(), "/inbox".to_string());
    assert!(bad_host_empty.is_none());
    let bad_path_relative =
        Destination::try_new("https".to_string(), "a.example".to_string(), "inbox".to_string());
    assert!(bad_path_relative.is_none());
    let bad_host_space = Destination::try_new(
        "https".to_string(),
        "a. example".to_string(),
        "/inbox".to_string(),
    );
    assert!(bad_host_space.is_none());
    let bad_path_quote = Destination::try_new(
        "https".to_string(),
        "a.example".to_string(),
        "/in\"box".to_string(),
    );
    assert!(bad_path_quote.is_none());
}

#[test]
fn test_url_text_classification() {
    assert!(is_url_text_str("https://remote.example/u/bob/inbox"));
    assert!(is_url_text_str("a-b_c.d~e:8080/%20?x=1&y=2#frag"));
    assert!(is_url_text_str(""));
    assert!(!is_url_text_str("has space"));
    assert!(!is_url_text_str("quote\"inside"));
    assert!(!is_url_text_str("back\\slash"));
    assert!(!is_url_text_str("angle<bracket"));
    assert!(!is_url_text_str("angle>bracket"));
    assert!(!is_url_text_str("control\ncharacter"));
    assert!(!is_url_text_str("caf\u{e9}.example"));
}
