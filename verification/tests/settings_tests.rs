use serial_ssh_term::settings::{
    favorite_name, line_ending_str, AppSettings, LogSettings, SerialSettings, SettingsManager,
    SshFavorite, SshSettings, UiSettings,
};

#[test]
fn default_settings_values() {
    let s = AppSettings::default();
    assert_eq!(s.serial.port, "");
    assert_eq!(s.serial.baudrate, 115200);
    assert_eq!(s.serial.data_bits, 8);
    assert_eq!(s.serial.parity, "None");
    assert_eq!(s.serial.stop_bits, 1);
    assert_eq!(s.serial.flow_control, "None");
    assert_eq!(s.serial.timeout_ms, 1000);

    assert_eq!(s.ssh.host, "192.168.1.1");
    assert_eq!(s.ssh.port, 22);
    assert_eq!(s.ssh.username, "");
    assert_eq!(s.ssh.auth_method, "password");
    assert_eq!(s.ssh.key_path, "");

    assert!(s.ssh_favorites.is_empty());

    assert_eq!(s.ui.theme, "dark");
    assert_eq!(s.ui.font_family, "Monospace");
    assert_eq!(s.ui.font_size, 11);
    assert_eq!(s.ui.window_width, 1100);
    assert_eq!(s.ui.window_height, 750);
    assert!(!s.ui.show_line_numbers);
    assert_eq!(s.ui.max_scrollback_lines, 10000);
    assert_eq!(s.ui.line_ending, "LF");

    assert!(s.log.enabled);
    assert_eq!(s.log.level, "INFO");
    assert!(!s.log.log_to_file);
    assert_eq!(s.log.log_directory, "logs");
}

#[test]
fn default_favorite_values() {
    let f = SshFavorite::default();
    assert_eq!(f.name, "");
    assert_eq!(f.host, "");
    assert_eq!(f.port, 22);
    assert_eq!(f.username, "");
    assert_eq!(f.auth_method, "password");
    assert_eq!(f.key_path, "");
}

#[test]
fn sub_defaults_match_the_whole() {
    let serial = SerialSettings::default();
    assert_eq!(serial.baudrate, 115200);
    let ssh = SshSettings::default();
    assert_eq!(ssh.auth_method, "password");
    let ui = UiSettings::default();
    assert_eq!(ui.theme, "dark");
    let log = LogSettings::default();
    assert_eq!(log.level, "INFO");
}

#[test]
fn manager_starts_with_defaults() {
    let m = SettingsManager::new();
    assert_eq!(m.settings().ui.theme, "dark");
    assert_eq!(m.settings().serial.baudrate, 115200);
}

#[test]
fn manager_adopts_loaded_settings() {
    let mut s = AppSettings::default();
    s.ui.theme = String::from("hacker");
    s.serial.baudrate = 9600;
    let m = SettingsManager::from_settings(s);
    assert_eq!(m.settings().ui.theme, "hacker");
    assert_eq!(m.settings().serial.baudrate, 9600);
}

#[test]
fn set_theme_changes_only_the_theme() {
    let mut m = SettingsManager::new();
    m.set_theme("light");
    assert_eq!(m.settings().ui.theme, "light");
    assert_eq!(m.settings().ui.line_ending, "LF");
    assert_eq!(m.settings().serial.baudrate, 115200);
}

#[test]
fn set_window_size_changes_only_the_size() {
    let mut m = SettingsManager::new();
    m.set_window_size(800, 600);
    assert_eq!(m.settings().ui.window_width, 800);
    assert_eq!(m.settings().ui.window_height, 600);
    assert_eq!(m.settings().ui.theme, "dark");
}

#[test]
fn set_line_ending_changes_only_the_line_ending() {
    let mut m = SettingsManager::new();
    m.set_line_ending("CRLF");
    assert_eq!(m.settings().ui.line_ending, "CRLF");
    assert_eq!(m.settings().ui.theme, "dark");
}

#[test]
fn settings_mut_gives_write_access() {
    let mut m = SettingsManager::new();
    m.settings_mut().ssh.host = String::from("box.test");
    m.settings_mut().ssh_favorites.push(SshFavorite::default());
    assert_eq!(m.settings().ssh.host, "box.test");
    assert_eq!(m.settings().ssh_favorites.len(), 1);
}

#[test]
fn line_ending_names_map_to_their_characters() {
    assert_eq!(line_ending_str("LF"), "\n");
    assert_eq!(line_ending_str("CR"), "\r");
    assert_eq!(line_ending_str("CRLF"), "\r\n");
    assert_eq!(line_ending_str("None"), "");
    assert_eq!(line_ending_str("anything"), "\n");
}

#[test]
fn favorite_names_follow_the_endpoint() {
    assert_eq!(favorite_name("user", "example.test", 22), "user@example.test:22");
    assert_eq!(favorite_name("u", "h", 2222), "u@h:2222");
}

fn favorite(host: &str, port: u16, username: &str, key_path: &str) -> SshFavorite {
    SshFavorite {
        name: favorite_name(username, host, port),
        host: host.to_string(),
        port,
        username: username.to_string(),
        auth_method: if key_path.is_empty() { "password".to_string() } else { "key".to_string() },
        key_path: key_path.to_string(),
    }
}

#[test]
fn adding_a_favorite_appends_or_replaces() {
    let mut m = SettingsManager::new();
    m.add_ssh_favorite(favorite("a.test", 22, "alice", ""));
    m.add_ssh_favorite(favorite("b.test", 22, "bob", ""));
    assert_eq!(m.settings().ssh_favorites.len(), 2);

    // Same target: the stored profile is updated in place.
    m.add_ssh_favorite(favorite("a.test", 22, "alice", "/k/id"));
    assert_eq!(m.settings().ssh_favorites.len(), 2);
    assert_eq!(m.settings().ssh_favorites[0].auth_method, "key");
    assert_eq!(m.settings().ssh_favorites[0].key_path, "/k/id");
    assert_eq!(m.settings().ssh_favorites[1].username, "bob");

    // Another port is another target.
    m.add_ssh_favorite(favorite("a.test", 2222, "alice", ""));
    assert_eq!(m.settings().ssh_favorites.len(), 3);
    // The rest of the configuration is untouched.
    assert_eq!(m.settings().ui.theme, "dark");
}
