use rofi_vscode_mode::paths::{state_db_path, tildify, untildify};

#[test]
fn tildify_under_home() {
    assert_eq!(tildify("/home/u/proj", "/home/u"), "~/proj");
}

#[test]
fn tildify_exact_home() {
    assert_eq!(tildify("/home/u", "/home/u"), "~");
}

#[test]
fn tildify_outside_home_unchanged() {
    assert_eq!(tildify("/opt/tools", "/home/u"), "/opt/tools");
}

#[test]
fn tildify_is_component_wise() {
    // "/home/uu" continues the text of "/home/u" but not its components.
    assert_eq!(tildify("/home/uu/x", "/home/u"), "/home/uu/x");
}

#[test]
fn tildify_unresolved_home_unchanged() {
    assert_eq!(tildify("/home/u/proj", ""), "/home/u/proj");
}

#[test]
fn untildify_tilde_slash() {
    assert_eq!(untildify("~/proj", "/home/u"), "/home/u/proj");
}

#[test]
fn untildify_bare_tilde() {
    assert_eq!(untildify("~", "/home/u"), "/home/u");
}

#[test]
fn untildify_without_tilde_unchanged() {
    assert_eq!(untildify("proj/x", "/home/u"), "proj/x");
    assert_eq!(untildify("/abs/path", "/home/u"), "/abs/path");
}

#[test]
fn untildify_tilde_component_only() {
    // "~abc" is not a home reference.
    assert_eq!(untildify("~abc", "/home/u"), "~abc");
}

#[test]
fn untildify_unresolved_home_unchanged() {
    assert_eq!(untildify("~/proj", ""), "~/proj");
}

#[test]
fn untildify_undoes_tildify() {
    let home = "/home/u";
    for p in ["/home/u/proj", "/home/u", "/home/u/a/b/c", "/elsewhere"] {
        assert_eq!(untildify(&tildify(p, home), home), p);
    }
}

#[test]
fn state_db_path_appends_fixed_layout() {
    assert_eq!(
        state_db_path("/home/u/.config/Code"),
        "/home/u/.config/Code/User/globalStorage/state.vscdb"
    );
}
