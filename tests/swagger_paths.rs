use utoipa_gen::swagger::file_path;

#[test]
fn file_below_parameterised_route() {
    assert_eq!(
        file_path("/swagger-ui/<tail..>", "/swagger-ui/index.html"),
        Some("index.html".to_string())
    );
}

#[test]
fn route_without_parameter() {
    assert_eq!(file_path("/docs", "/docs/x.css"), Some("/x.css".to_string()));
    assert_eq!(file_path("/docs", "/docs"), Some(String::new()));
}

#[test]
fn request_shorter_than_route() {
    assert_eq!(file_path("/swagger-ui/<tail..>", "/sw"), None);
}
