use serial_ssh_term::error::{host_port, ConnectionError};
use serial_ssh_term::secrets::{
    delete_ssh_key_passphrase, load_ssh_key_passphrase, passphrase_account, password_account,
    save_ssh_key_passphrase, save_ssh_password,
};
use serial_ssh_term::theme::{Theme, ThemeManager};

#[test]
fn password_account_names_user_host_and_port() {
    assert_eq!(password_account("example.test", 22, "user"), "ssh-password:user@example.test:22");
    assert_eq!(password_account("h", 2222, "u"), "ssh-password:u@h:2222");
}

#[test]
fn passphrase_account_includes_the_trimmed_key_path() {
    // Would fail if the trimming wrapper handed its argument back
    // unchanged.
    assert_eq!(
        passphrase_account("example.test", 22, "user", "  /home/user/.ssh/id_ed25519  "),
        "ssh-passphrase:user@example.test:22:/home/user/.ssh/id_ed25519"
    );
}

#[test]
fn blank_password_is_not_written() {
    assert!(save_ssh_password("example.test", 22, "user", "   ").is_ok());
    assert!(save_ssh_password("example.test", 22, "user", "").is_ok());
}

#[test]
fn blank_key_path_short_circuits_passphrase_calls() {
    assert!(save_ssh_key_passphrase("h", 22, "u", "  ", "secret").is_ok());
    assert!(save_ssh_key_passphrase("h", 22, "u", "/key", "  ").is_ok());
    assert_eq!(load_ssh_key_passphrase("h", 22, "u", "  "), None);
    assert!(delete_ssh_key_passphrase("h", 22, "u", "").is_ok());
}

#[test]
fn host_port_renders_the_address() {
    assert_eq!(host_port("example.test", 22), "example.test:22");
    assert_eq!(host_port("10.0.0.1", 65535), "10.0.0.1:65535");
}

#[test]
fn error_messages_render_their_details() {
    let e = ConnectionError::WriteFailed { detail: String::from("port busy") };
    assert_eq!(e.message(), "write failed: port busy");
    let e = ConnectionError::OpenFailed {
        endpoint: String::from("COM9"),
        detail: String::from("denied"),
    };
    assert_eq!(e.message(), "cannot open COM9: denied");
}

#[test]
fn theme_names_map_case_insensitively() {
    assert!(matches!(Theme::from_str_name("light"), Theme::Light));
    assert!(matches!(Theme::from_str_name("LIGHT"), Theme::Light));
    assert!(matches!(Theme::from_str_name("Clair"), Theme::Light));
    assert!(matches!(Theme::from_str_name("hacker"), Theme::Hacker));
    assert!(matches!(Theme::from_str_name("Matrix"), Theme::Hacker));
    assert!(matches!(Theme::from_str_name("dark"), Theme::Dark));
    assert!(matches!(Theme::from_str_name("anything else"), Theme::Dark));
    assert!(matches!(Theme::from_str_name(""), Theme::Dark));
}

#[test]
fn theme_identifiers_round_trip() {
    for t in Theme::all() {
        assert!(matches!(Theme::from_str_name(t.id()), x if x == t));
    }
    assert_eq!(Theme::all().len(), 3);
    assert!(matches!(Theme::all()[0], Theme::Light));
}

#[test]
fn theme_names() {
    assert_eq!(Theme::Light.display_name(), "Clair");
    assert_eq!(Theme::Dark.display_name(), "Sombre");
    assert_eq!(Theme::Hacker.display_name(), "Hacker");
    assert_eq!(Theme::Light.id(), "light");
    assert_eq!(Theme::Dark.id(), "dark");
    assert_eq!(Theme::Hacker.id(), "hacker");
}

#[test]
fn each_theme_has_its_own_style_sheet() {
    let light = ThemeManager::css_for_theme(Theme::Light);
    let dark = ThemeManager::css_for_theme(Theme::Dark);
    let hacker = ThemeManager::css_for_theme(Theme::Hacker);
    assert!(light.contains(".terminal-view"));
    assert!(light.contains("#fafafa"));
    assert!(dark.contains("#1e1e2e"));
    assert!(hacker.contains("#00ff41"));
    assert!(hacker.contains(".hacker-title"));
    assert_ne!(light, dark);
    assert_ne!(dark, hacker);
}
