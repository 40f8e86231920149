use rofi_vscode_mode::errors::RecentError;
use rofi_vscode_mode::location::Location;
use rofi_vscode_mode::session::{
    BufferUpdate, LaunchRequest, Session, SessionEvent, SessionOutcome,
};
use rofi_vscode_mode::store::read_history;
use rofi_vscode_mode::workspaces::Recent;

const HOME: &str = "/home/u";

fn folder(url: &str) -> Recent {
    Recent::Folder {
        folder_uri: Location::new(url).unwrap(),
        label: None,
        remote_authority: None,
    }
}

fn remote_file(url: &str, authority: &str) -> Recent {
    Recent::File {
        file_uri: Location::new(url).unwrap(),
        label: None,
        remote_authority: Some(authority.to_string()),
    }
}

fn abc_session() -> Session {
    let entries = vec![
        folder("file:///home/u/a"),
        folder("file:///home/u/b"),
        folder("file:///home/u/c"),
    ];
    Session::new(entries, HOME.to_string())
}

#[test]
fn delete_then_reload_scenario() {
    let mut session = abc_session();
    assert_eq!(session.len(), 3);

    let payload = session.on_delete(1);

    // The in-memory list is [A, C], relative order preserved.
    assert_eq!(session.len(), 2);
    assert_eq!(session.entry(0), &folder("file:///home/u/a"));
    assert_eq!(session.entry(1), &folder("file:///home/u/c"));

    // The store write holds exactly {entries: [A, C]}.
    let doc: serde_json::Value = serde_json::from_str(&payload).unwrap();
    let entries = doc.get("entries").unwrap().as_array().unwrap();
    assert_eq!(entries.len(), 2);
    assert_eq!(
        entries[0].get("folderUri").unwrap().as_str().unwrap(),
        "file:///home/u/a"
    );
    assert_eq!(
        entries[1].get("folderUri").unwrap().as_str().unwrap(),
        "file:///home/u/c"
    );

    // A subsequent read returns [A, C].
    let reloaded = read_history(&payload, false).unwrap();
    assert_eq!(
        reloaded,
        vec![folder("file:///home/u/a"), folder("file:///home/u/c")]
    );
}

#[test]
fn react_delete_persists_and_shrinks() {
    let mut session = abc_session();
    let outcome = session.react(&SessionEvent::Delete { index: 0 }).unwrap();
    match outcome {
        SessionOutcome::Persist { payload } => {
            let reloaded = read_history(&payload, false).unwrap();
            assert_eq!(
                reloaded,
                vec![folder("file:///home/u/b"), folder("file:///home/u/c")]
            );
        }
        other => panic!("expected a persist outcome, got {:?}", other),
    }
    assert_eq!(session.len(), 2);
}

#[test]
fn react_cancel_exits() {
    let mut session = abc_session();
    assert_eq!(session.react(&SessionEvent::Cancel), Ok(SessionOutcome::Exit));
    assert_eq!(session.len(), 3);
}

#[test]
fn react_custom_command_unsupported() {
    let mut session = abc_session();
    assert_eq!(
        session.react(&SessionEvent::CustomCommand),
        Err(RecentError::Unsupported)
    );
}

#[test]
fn select_local_item_resolves_path() {
    let mut session = abc_session();
    let outcome = session.react(&SessionEvent::Select { index: 1 }).unwrap();
    assert_eq!(
        outcome,
        SessionOutcome::Launch(LaunchRequest::Local {
            path: "/home/u/b".to_string()
        })
    );
}

#[test]
fn select_remote_item_requests_remote_open() {
    let entries = vec![remote_file(
        "vscode-remote://ssh-remote+box/home/u/n.txt",
        "ssh-remote+box",
    )];
    let session = Session::new(entries, HOME.to_string());
    let launch = session.on_select(0).unwrap();
    assert_eq!(
        launch,
        LaunchRequest::Remote {
            authority: Some("ssh-remote+box".to_string()),
            url: "vscode-remote://ssh-remote+box/home/u/n.txt".to_string(),
        }
    );
}

#[test]
fn custom_input_is_treated_as_local_path() {
    let session = abc_session();
    assert_eq!(
        session.on_custom_input("~/notes/todo.md"),
        LaunchRequest::Local {
            path: "/home/u/notes/todo.md".to_string()
        }
    );
    assert_eq!(
        session.on_custom_input("/absolute/path"),
        LaunchRequest::Local {
            path: "/absolute/path".to_string()
        }
    );
}

#[test]
fn autocomplete_replaces_buffer_with_label() {
    let mut session = abc_session();
    let outcome = session
        .react(&SessionEvent::Complete { index: Some(2) })
        .unwrap();
    assert_eq!(
        outcome,
        SessionOutcome::Buffer(BufferUpdate::Replace("~/c".to_string()))
    );
}

#[test]
fn autocomplete_without_selection_clears_buffer() {
    let session = abc_session();
    assert_eq!(session.on_autocomplete(None), BufferUpdate::Clear);
}

#[test]
fn autocomplete_on_unlabeled_remote_clears_buffer() {
    let entries = vec![remote_file(
        "vscode-remote://ssh-remote+box/n.txt",
        "ssh-remote+box",
    )];
    let session = Session::new(entries, HOME.to_string());
    assert_eq!(session.on_autocomplete(Some(0)), BufferUpdate::Clear);
}

#[test]
fn display_shows_contracted_label() {
    let session = abc_session();
    assert_eq!(session.display(0), "~/a");
}

#[test]
fn display_of_broken_entry_is_empty() {
    let entries = vec![remote_file(
        "vscode-remote://ssh-remote+box/n.txt",
        "ssh-remote+box",
    )];
    let session = Session::new(entries, HOME.to_string());
    assert_eq!(session.display(0), "");
}

#[test]
fn matches_searches_display_text() {
    let session = abc_session();
    assert!(session.matches(0, "~/a"));
    assert!(session.matches(0, "a"));
    assert!(session.matches(0, ""));
    assert!(!session.matches(0, "zzz"));
}

#[test]
fn broken_entry_matches_nothing() {
    let entries = vec![remote_file(
        "vscode-remote://ssh-remote+box/n.txt",
        "ssh-remote+box",
    )];
    let session = Session::new(entries, HOME.to_string());
    assert!(!session.matches(0, "n.txt"));
}
