use rofi_vscode_mode::errors::RecentError;
use rofi_vscode_mode::icons::{IconConfig, IconMode, IconRequest, RgbaChannels};
use rofi_vscode_mode::location::Location;
use rofi_vscode_mode::vscode::{format_entry, Flavor, OutputFormat};
use rofi_vscode_mode::workspaces::{Recent, WorkspaceIdentifier};

fn folder(url: &str) -> Recent {
    Recent::Folder {
        folder_uri: Location::new(url).unwrap(),
        label: None,
        remote_authority: None,
    }
}

#[test]
fn flavor_commands() {
    assert_eq!(Flavor::Code.cmd(), "code");
    assert_eq!(Flavor::CodeInsiders.cmd(), "code-insiders");
    assert_eq!(Flavor::CodeOSS.cmd(), "code-oss");
    assert_eq!(Flavor::VSCodium.cmd(), "codium");
}

#[test]
fn flavor_config_subdirs() {
    assert_eq!(Flavor::Code.config_subdir(), "Code");
    assert_eq!(Flavor::CodeInsiders.config_subdir(), "Code - Insiders");
    assert_eq!(Flavor::CodeOSS.config_subdir(), "Code - OSS");
    assert_eq!(Flavor::VSCodium.config_subdir(), "VSCodium");
}

#[test]
fn flavor_parse_is_case_insensitive() {
    assert_eq!(Flavor::parse("code"), Some(Flavor::Code));
    assert_eq!(Flavor::parse("CODE"), Some(Flavor::Code));
    assert_eq!(Flavor::parse("Code-Insiders"), Some(Flavor::CodeInsiders));
    assert_eq!(Flavor::parse("code-oss"), Some(Flavor::CodeOSS));
    assert_eq!(Flavor::parse("vscodium"), Some(Flavor::VSCodium));
    assert_eq!(Flavor::parse("CODIUM"), Some(Flavor::VSCodium));
    assert_eq!(Flavor::parse("emacs"), None);
    assert_eq!(Flavor::parse(""), None);
}

#[test]
fn open_recent_args_pick_the_uri_flag() {
    let d = folder("file:///home/u/proj");
    let (cmd, args) = Flavor::Code.open_recent_args(&d);
    assert_eq!(cmd, "code");
    assert_eq!(args, vec!["--folder-uri", "file:///home/u/proj"]);

    let f = Recent::File {
        file_uri: Location::new("file:///home/u/a.txt").unwrap(),
        label: None,
        remote_authority: None,
    };
    let (_, args) = Flavor::VSCodium.open_recent_args(&f);
    assert_eq!(args, vec!["--file-uri", "file:///home/u/a.txt"]);

    let w = Recent::Workspace {
        workspace: WorkspaceIdentifier {
            id: "x".to_string(),
            config_path: Location::new("file:///w.code-workspace").unwrap(),
        },
        label: None,
        remote_authority: None,
    };
    let (_, args) = Flavor::Code.open_recent_args(&w);
    assert_eq!(args, vec!["--file-uri", "file:///w.code-workspace"]);
}

#[test]
fn output_format_defaults_to_label() {
    assert_eq!(OutputFormat::default(), OutputFormat::Label);
}

#[test]
fn format_entry_per_format() {
    let entry = folder("file:///home/u/proj");
    assert_eq!(
        format_entry(&entry, &OutputFormat::Label, "/home/u").unwrap(),
        "~/proj"
    );
    assert_eq!(
        format_entry(&entry, &OutputFormat::AbsolutePath, "/home/u").unwrap(),
        "/home/u/proj"
    );
    assert_eq!(
        format_entry(&entry, &OutputFormat::Uri, "/home/u").unwrap(),
        "file:///home/u/proj"
    );
}

#[test]
fn format_entry_remote_errors_on_path_formats() {
    let entry = Recent::File {
        file_uri: Location::new("vscode-remote://ssh-remote+box/n.txt").unwrap(),
        label: None,
        remote_authority: Some("ssh-remote+box".to_string()),
    };
    assert_eq!(
        format_entry(&entry, &OutputFormat::Label, "/home/u"),
        Err(RecentError::NotLocal)
    );
    assert_eq!(
        format_entry(&entry, &OutputFormat::AbsolutePath, "/home/u"),
        Err(RecentError::NotLocal)
    );
    assert_eq!(
        format_entry(&entry, &OutputFormat::Uri, "/home/u").unwrap(),
        "vscode-remote://ssh-remote+box/n.txt"
    );
}

#[test]
fn icon_mode_default_is_theme() {
    assert_eq!(IconMode::default(), IconMode::Theme);
}

#[test]
fn icon_mode_from_name() {
    assert_eq!(IconMode::from_name("none"), IconMode::Off);
    assert_eq!(IconMode::from_name("NONE"), IconMode::Off);
    assert_eq!(IconMode::from_name("theme"), IconMode::Theme);
    assert_eq!(IconMode::from_name("nerd"), IconMode::Nerd);
    assert_eq!(IconMode::from_name("Nerd"), IconMode::Nerd);
    // Unrecognized names fall back to the theme.
    assert_eq!(IconMode::from_name("whatever"), IconMode::Theme);
}

#[test]
fn rgba_parses_six_digits() {
    assert_eq!(
        RgbaChannels::parse("#102030"),
        Some(RgbaChannels { red: 0x10, green: 0x20, blue: 0x30, alpha: 0xff })
    );
    assert_eq!(
        RgbaChannels::parse("#FFcc00"),
        Some(RgbaChannels { red: 0xff, green: 0xcc, blue: 0x00, alpha: 0xff })
    );
}

#[test]
fn rgba_parses_eight_digits() {
    assert_eq!(
        RgbaChannels::parse("#10203040"),
        Some(RgbaChannels { red: 0x10, green: 0x20, blue: 0x30, alpha: 0x40 })
    );
}

#[test]
fn rgba_rejects_other_shapes() {
    assert_eq!(RgbaChannels::parse("102030"), None);
    assert_eq!(RgbaChannels::parse("#1020"), None);
    assert_eq!(RgbaChannels::parse("#10203"), None);
    assert_eq!(RgbaChannels::parse("#1020zz"), None);
    assert_eq!(RgbaChannels::parse(""), None);
}

#[test]
fn icon_request_follows_mode_and_variant() {
    let entry = folder("file:///d");
    let mut config = IconConfig {
        mode: IconMode::Off,
        font: "monospace".to_string(),
        color: RgbaChannels { red: 0, green: 0, blue: 0, alpha: 255 },
    };
    assert_eq!(config.request(&entry), IconRequest::NoIcon);
    config.mode = IconMode::Theme;
    assert_eq!(
        config.request(&entry),
        IconRequest::FromTheme("folder".to_string())
    );
    config.mode = IconMode::Nerd;
    assert_eq!(
        config.request(&entry),
        IconRequest::FromFont("\u{f74a}".to_string())
    );
}
