use palladium::proxy::{
    find_param, forward_target, forwards_request_header, keeps_response_header,
    query_param, random_token, route, split_request_path, token_alphabet, web_target, Route,
};

#[test]
fn tokens_are_32_lowercase_alphanumerics_and_differ() {
    let a = random_token();
    let b = random_token();
    assert_eq!(a.chars().count(), 32);
    assert!(a.chars().all(|c| c.is_ascii_lowercase() || c.is_ascii_digit()));
    assert_ne!(a, b);
    assert_eq!(token_alphabet(0), 'a');
    assert_eq!(token_alphabet(25), 'z');
    assert_eq!(token_alphabet(26), '0');
    assert_eq!(token_alphabet(35), '9');
}

#[test]
fn paths_split_after_leading_slashes() {
    assert_eq!(split_request_path("/tok/zoom"), ("tok".to_string(), "zoom".to_string()));
    assert_eq!(split_request_path("///tok/a/b"), ("tok".to_string(), "a/b".to_string()));
    assert_eq!(split_request_path("/tok"), ("tok".to_string(), String::new()));
    assert_eq!(split_request_path(""), (String::new(), String::new()));
}

#[test]
fn routes_need_the_token() {
    let t = "abc";
    assert_eq!(route(true, "/nope", t), Route::Forbidden);
    assert_eq!(route(true, "/", t), Route::Forbidden);
    assert_eq!(route(true, "/abc/zoom", t), Route::Preflight);
    assert_eq!(route(false, "/nope/zoom", t), Route::Forbidden);
    assert_eq!(route(false, "/", t), Route::Forbidden);
    assert_eq!(route(false, "/abc/clipboard-image", t), Route::ClipboardImage);
    assert_eq!(route(false, "/abc/log", t), Route::Forward);
    assert_eq!(route(false, "/abc/zoom", t), Route::Zoom);
    assert_eq!(route(false, "/abc", t), Route::Forward);
    assert_eq!(route(false, "/abc/other", t), Route::Forward);
}

#[test]
fn query_parameters_are_decoded() {
    assert_eq!(query_param("a=1&url=https%3A%2F%2Fx.org%2Fp&url=2", "url"), Some("https://x.org/p".to_string()));
    assert_eq!(query_param("m=hello+world", "m"), Some("hello world".to_string()));
    assert_eq!(query_param("a=1", "b"), None);
    let pairs = vec![("k".to_string(), "1".to_string()), ("k".to_string(), "2".to_string())];
    assert_eq!(find_param(&pairs, "k"), Some("1".to_string()));
}

#[test]
fn only_http_and_https_targets_are_forwarded() {
    assert_eq!(forward_target("url=https://example.com/x"), Some("https://example.com/x".to_string()));
    assert_eq!(forward_target("url=http%3A%2F%2Fexample.com"), Some("http://example.com".to_string()));
    assert_eq!(forward_target("url=file:///etc/passwd"), None);
    assert_eq!(forward_target("url=not a url"), None);
    assert_eq!(forward_target("x=1"), None);
    assert_eq!(web_target("t".to_string(), Some("ftp")), None);
    assert_eq!(web_target("t".to_string(), Some("https")), Some("t".to_string()));
}

#[test]
fn header_filters_ignore_case() {
    assert!(!forwards_request_header("Host"));
    assert!(!forwards_request_header("ORIGIN"));
    assert!(!forwards_request_header("Connection"));
    assert!(forwards_request_header("Authorization"));
    assert!(!keeps_response_header("Content-Security-Policy"));
    assert!(!keeps_response_header("X-Frame-Options"));
    assert!(!keeps_response_header("Transfer-Encoding"));
    assert!(keeps_response_header("Content-Type"));
    assert!(keeps_response_header("Host"));
}
