use rofi_vscode_mode::errors::RecentError;
use rofi_vscode_mode::location::{path_from_url, Location};

#[test]
fn path_from_url_rejects_http_scheme() {
    assert_eq!(
        path_from_url("http://example.com/x"),
        Err(RecentError::UnsupportedScheme)
    );
}

#[test]
fn path_from_url_rejects_other_schemes() {
    assert_eq!(
        path_from_url("vscode-remote://ssh-remote+box/home/u"),
        Err(RecentError::UnsupportedScheme)
    );
    assert_eq!(
        path_from_url("vscode-vfs://github/o/r"),
        Err(RecentError::UnsupportedScheme)
    );
}

#[test]
fn path_from_url_accepts_file_scheme() {
    assert_eq!(
        path_from_url("file:///home/u/proj"),
        Ok("/home/u/proj".to_string())
    );
}

#[test]
fn path_from_url_decodes_percent_escapes() {
    assert_eq!(path_from_url("file:///a%20b"), Ok("/a b".to_string()));
}

#[test]
fn path_from_url_rejects_unparsable_text() {
    assert_eq!(path_from_url("not a url"), Err(RecentError::MalformedUrl));
}

#[test]
fn path_from_url_rejects_foreign_host() {
    // A file URL on a host other than localhost has no local path.
    assert_eq!(
        path_from_url("file://otherhost/x"),
        Err(RecentError::MalformedUrl)
    );
}

#[test]
fn location_normalizes_scheme_case() {
    let loc = Location::new("FILE:///home/u/x").unwrap();
    assert_eq!(loc.scheme(), "file");
    assert!(loc.is_local());
}

#[test]
fn location_keeps_url_text() {
    let loc = Location::new("file:///home/u/x").unwrap();
    assert_eq!(loc.as_str(), "file:///home/u/x");
}

#[test]
fn location_remote_is_not_local() {
    let loc = Location::new("vscode-remote://ssh-remote+box/home/u").unwrap();
    assert!(!loc.is_local());
    assert_eq!(loc.file_path(), Err(RecentError::NotLocal));
}

#[test]
fn location_file_path_resolves() {
    let loc = Location::new("file:///home/u/x").unwrap();
    assert_eq!(loc.file_path(), Ok("/home/u/x".to_string()));
}

#[test]
fn location_rejects_invalid_url() {
    assert!(Location::new("not a url").is_none());
}
