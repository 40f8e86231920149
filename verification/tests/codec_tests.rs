use rofi_vscode_mode::errors::RecentError;
use rofi_vscode_mode::location::Location;
use rofi_vscode_mode::store::{dump_history, read_history};
use rofi_vscode_mode::workspaces::{Recent, WorkspaceIdentifier};

fn folder(url: &str, label: Option<&str>, remote: Option<&str>) -> Recent {
    Recent::Folder {
        folder_uri: Location::new(url).unwrap(),
        label: label.map(|s| s.to_string()),
        remote_authority: remote.map(|s| s.to_string()),
    }
}

fn file(url: &str, label: Option<&str>, remote: Option<&str>) -> Recent {
    Recent::File {
        file_uri: Location::new(url).unwrap(),
        label: label.map(|s| s.to_string()),
        remote_authority: remote.map(|s| s.to_string()),
    }
}

fn workspace(id: &str, url: &str, label: Option<&str>, remote: Option<&str>) -> Recent {
    Recent::Workspace {
        workspace: WorkspaceIdentifier {
            id: id.to_string(),
            config_path: Location::new(url).unwrap(),
        },
        label: label.map(|s| s.to_string()),
        remote_authority: remote.map(|s| s.to_string()),
    }
}

#[test]
fn round_trip_preserves_list() {
    let entries = vec![
        workspace("abc123", "file:///home/u/ws.code-workspace", Some("ws"), None),
        folder("file:///home/u/proj", None, None),
        file(
            "vscode-remote://ssh-remote+box/home/u/notes.txt",
            Some("notes"),
            Some("ssh-remote+box"),
        ),
    ];
    let payload = dump_history(&entries);
    let reloaded = read_history(&payload, false).unwrap();
    assert_eq!(reloaded, entries);
}

#[test]
fn round_trip_keeps_optional_fields_absent() {
    let entries = vec![folder("file:///home/u/proj", None, None)];
    let payload = dump_history(&entries);
    let doc: serde_json::Value = serde_json::from_str(&payload).unwrap();
    let first = &doc.get("entries").unwrap().as_array().unwrap()[0];
    assert_eq!(
        first.get("folderUri").unwrap().as_str().unwrap(),
        "file:///home/u/proj"
    );
    assert!(first.get("label").is_none());
    assert!(first.get("remoteAuthority").is_none());
}

#[test]
fn encoded_workspace_nests_identifier() {
    let entries = vec![workspace(
        "abc123",
        "file:///home/u/ws.code-workspace",
        Some("ws"),
        None,
    )];
    let payload = dump_history(&entries);
    let doc: serde_json::Value = serde_json::from_str(&payload).unwrap();
    let first = &doc.get("entries").unwrap().as_array().unwrap()[0];
    let ws = first.get("workspace").unwrap();
    assert_eq!(ws.get("id").unwrap().as_str().unwrap(), "abc123");
    assert_eq!(
        ws.get("configPath").unwrap().as_str().unwrap(),
        "file:///home/u/ws.code-workspace"
    );
    assert_eq!(first.get("label").unwrap().as_str().unwrap(), "ws");
}

#[test]
fn malformed_entry_is_dropped_not_fatal() {
    let text = r#"{"entries": [
        {"folderUri": "file:///home/u/proj"},
        {"somethingElse": true},
        42,
        "plain string"
    ]}"#;
    let got = read_history(text, false).unwrap();
    assert_eq!(got, vec![folder("file:///home/u/proj", None, None)]);
}

#[test]
fn entry_with_wrong_label_type_is_dropped() {
    let text = r#"{"entries": [{"folderUri": "file:///a", "label": 5}]}"#;
    assert_eq!(read_history(text, false).unwrap().len(), 0);
}

#[test]
fn null_label_reads_as_absent() {
    let text = r#"{"entries": [{"folderUri": "file:///a", "label": null}]}"#;
    let got = read_history(text, false).unwrap();
    assert_eq!(got, vec![folder("file:///a", None, None)]);
}

#[test]
fn entry_with_invalid_url_is_dropped() {
    let text = r#"{"entries": [{"fileUri": "not a url"}]}"#;
    assert_eq!(read_history(text, false).unwrap().len(), 0);
}

#[test]
fn workspace_entry_decodes() {
    let text = r#"{"entries": [{
        "workspace": {"id": "deadbeef", "configPath": "file:///home/u/a.code-workspace"},
        "remoteAuthority": "ssh-remote+box"
    }]}"#;
    let got = read_history(text, false).unwrap();
    assert_eq!(
        got,
        vec![workspace(
            "deadbeef",
            "file:///home/u/a.code-workspace",
            None,
            Some("ssh-remote+box"),
        )]
    );
}

#[test]
fn label_fallback_contracts_home() {
    let text = r#"{"entries": [{"folderUri": "file:///home/u/proj"}]}"#;
    let got = read_history(text, false).unwrap();
    assert_eq!(got[0].label("/home/u").unwrap(), "~/proj");
}

#[test]
fn stored_label_returned_verbatim() {
    let entry = folder("file:///home/u/proj", Some("My Project"), None);
    assert_eq!(entry.label("/home/u").unwrap(), "My Project");
}

#[test]
fn remote_entry_without_label_has_none() {
    let entry = file(
        "vscode-remote://ssh-remote+box/home/u/n.txt",
        None,
        Some("ssh-remote+box"),
    );
    assert_eq!(entry.label("/home/u"), Err(RecentError::NotLocal));
}

#[test]
fn local_only_filters_remote_items() {
    let text = r#"{"entries": [
        {"fileUri": "file:///home/u/a.txt"},
        {"fileUri": "vscode-remote://ssh-remote+box/b.txt", "remoteAuthority": "ssh-remote+box"}
    ]}"#;
    let local = read_history(text, true).unwrap();
    assert_eq!(local, vec![file("file:///home/u/a.txt", None, None)]);
    let all = read_history(text, false).unwrap();
    assert_eq!(all.len(), 2);
}

#[test]
fn entry_order_is_preserved() {
    let text = r#"{"entries": [
        {"fileUri": "file:///1"},
        {"fileUri": "file:///2"},
        {"fileUri": "file:///3"}
    ]}"#;
    let got = read_history(text, false).unwrap();
    let urls: Vec<&str> = got.iter().map(|e| e.url().as_str()).collect();
    assert_eq!(urls, vec!["file:///1", "file:///2", "file:///3"]);
}

#[test]
fn invalid_json_is_corrupt() {
    assert_eq!(read_history("{oops", false), Err(RecentError::Corrupt));
}

#[test]
fn missing_entries_array_is_schema_error() {
    assert_eq!(read_history("{}", false), Err(RecentError::SchemaError));
    assert_eq!(read_history("[1, 2]", false), Err(RecentError::SchemaError));
    assert_eq!(
        read_history(r#"{"entries": 3}"#, false),
        Err(RecentError::SchemaError)
    );
}

#[test]
fn recent_accessors_expose_fields() {
    let entry = file(
        "vscode-remote://ssh-remote+box/b.txt",
        None,
        Some("ssh-remote+box"),
    );
    assert!(!entry.is_local());
    assert_eq!(entry.remote(), Some("ssh-remote+box"));
    assert_eq!(entry.url().as_str(), "vscode-remote://ssh-remote+box/b.txt");
    assert_eq!(entry.file_path(), Err(RecentError::NotLocal));

    let local = folder("file:///home/u/proj", None, None);
    assert!(local.is_local());
    assert_eq!(local.remote(), None);
    assert_eq!(local.file_path().unwrap(), "/home/u/proj");
}

#[test]
fn icon_keys_by_variant() {
    let w = workspace("x", "file:///w.code-workspace", None, None);
    let d = folder("file:///d", None, None);
    let f = file("file:///f", None, None);
    assert_eq!(w.icon_name(), "visual-studio-code");
    assert_eq!(d.icon_name(), "folder");
    assert_eq!(f.icon_name(), "text-x-generic");
    assert_eq!(w.nerd_icon(), "\u{fb0f}");
    assert_eq!(d.nerd_icon(), "\u{f74a}");
    assert_eq!(f.nerd_icon(), "\u{f713}");
}
