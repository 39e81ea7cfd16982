use fgm::url::{FigmaUrl, UrlError};

#[test]
fn test_parse_full_url() {
    let url = FigmaUrl::parse("https://www.figma.com/file/abc123/My-Design").unwrap();
    assert_eq!(url.file_key, "abc123");
    assert_eq!(url.file_name, Some("My Design".to_string()));
    assert_eq!(url.node_id, None);
}

#[test]
fn test_parse_url_with_node_id() {
    let url = FigmaUrl::parse("https://www.figma.com/design/abc123/Test?node-id=1-234").unwrap();
    assert_eq!(url.file_key, "abc123");
    assert_eq!(url.node_id, Some("1:234".to_string()));
}

#[test]
fn test_parse_file_key() {
    let url = FigmaUrl::parse("abc123xyz").unwrap();
    assert_eq!(url.file_key, "abc123xyz");
    assert_eq!(url.node_id, None);
}

#[test]
fn test_parse_key_with_node() {
    let url = FigmaUrl::parse("abc123:1:234").unwrap();
    assert_eq!(url.file_key, "abc123");
    assert_eq!(url.node_id, Some("1:234".to_string()));
}

#[test]
fn percent_encoded_names_are_decoded() {
    let url = FigmaUrl::parse("https://www.figma.com/file/k1/My%20Design").unwrap();
    assert_eq!(url.file_name, Some("My Design".to_string()));
}

#[test]
fn percent_encoded_node_ids_are_decoded() {
    let url = FigmaUrl::parse("https://figma.com/file/k1/Name?node-id=1%3A2").unwrap();
    assert_eq!(url.node_id, Some("1:2".to_string()));
}

#[test]
fn foreign_hosts_are_rejected() {
    let err = FigmaUrl::parse("https://example.com/file/abc123/Name").unwrap_err();
    assert_eq!(err, UrlError::NotFigma);
}

#[test]
fn missing_file_key_is_rejected() {
    let err = FigmaUrl::parse("https://www.figma.com/file").unwrap_err();
    assert_eq!(err, UrlError::MissingFileKey);
}

#[test]
fn unknown_path_types_are_rejected() {
    let err = FigmaUrl::parse("https://www.figma.com/user/abc123/Name").unwrap_err();
    assert_eq!(err, UrlError::InvalidUrlType);
}

#[test]
fn all_path_types_are_accepted() {
    for t in ["file", "design", "proto", "board"] {
        let input = format!("https://www.figma.com/{}/k/Name", t);
        assert!(FigmaUrl::parse(&input).is_ok());
    }
}

#[test]
fn surrounding_whitespace_is_trimmed() {
    let url = FigmaUrl::parse("  abc123xyz\n").unwrap();
    assert_eq!(url.file_key, "abc123xyz");
}

#[test]
fn host_matching_ignores_case() {
    let url = FigmaUrl::parse("https://WWW.Figma.COM/file/abc/Nm").unwrap();
    assert_eq!(url.file_key, "abc");
}

#[test]
fn key_with_node_requires_alphanumeric_key() {
    // A non-alphanumeric "key" part is taken as a plain file key.
    let url = FigmaUrl::parse("ab-c:1:2").unwrap();
    assert_eq!(url.file_key, "ab-c:1:2");
    assert_eq!(url.node_id, None);
}

#[test]
fn test_is_figma_url() {
    assert!(FigmaUrl::is_figma_url("https://www.figma.com/file/abc"));
    assert!(!FigmaUrl::is_figma_url("abc123"));
}
