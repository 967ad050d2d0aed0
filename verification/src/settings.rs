//! The application's persisted configuration as plain values, and the
//! manager that owns it.
//!
//! Reading and writing the configuration file is the driver's concern;
//! the manager here owns the current values and the verified updates the
//! rest of the application performs on them.

use vstd::prelude::*;
use vstd::string::StringExecFns;
use crate::text::{dec_seq, str_eq, u64_to_dec};

verus! {

/// Parameters of the serial connection panel.
#[derive(Debug, Clone)]
pub struct SerialSettings {
    pub port: String,
    pub baudrate: u32,
    pub data_bits: u8,
    pub parity: String,
    pub stop_bits: u8,
    pub flow_control: String,
    pub timeout_ms: u64,
}

/// Parameters of the SSH connection panel.  `auth_method` is "password"
/// or "key".
#[derive(Debug, Clone)]
pub struct SshSettings {
    pub host: String,
    pub port: u16,
    pub username: String,
    pub auth_method: String,
    pub key_path: String,
}

/// A stored SSH profile for quick reuse.
#[derive(Debug, Clone)]
pub struct SshFavorite {
    pub name: String,
    pub host: String,
    pub port: u16,
    pub username: String,
    pub auth_method: String,
    pub key_path: String,
}

/// User-interface parameters.  `theme` is "light", "dark" or "hacker";
/// `line_ending` is "LF", "CR", "CRLF" or "None".
#[derive(Debug, Clone)]
pub struct UiSettings {
    pub theme: String,
    pub font_family: String,
    pub font_size: u32,
    pub window_width: i32,
    pub window_height: i32,
    pub show_line_numbers: bool,
    pub max_scrollback_lines: u32,
    pub line_ending: String,
}

/// Logging parameters.
#[derive(Debug, Clone)]
pub struct LogSettings {
    pub enabled: bool,
    pub level: String,
    pub log_to_file: bool,
    pub log_directory: String,
}

/// The complete application configuration.
#[derive(Debug, Clone)]
pub struct AppSettings {
    pub serial: SerialSettings,
    pub ssh: SshSettings,
    pub ssh_favorites: Vec<SshFavorite>,
    pub ui: UiSettings,
    pub log: LogSettings,
}

/// The default serial parameters.
pub open spec fn is_default_serial(s: SerialSettings) -> bool {
    &&& s.port@ == Seq::<char>::empty()
    &&& s.baudrate == 115200u32
    &&& s.data_bits == 8u8
    &&& s.parity@ == "None"@
    &&& s.stop_bits == 1u8
    &&& s.flow_control@ == "None"@
    &&& s.timeout_ms == 1000u64
}

/// The default SSH parameters.
pub open spec fn is_default_ssh(s: SshSettings) -> bool {
    &&& s.host@ == "192.168.1.1"@
    &&& s.port == 22u16
    &&& s.username@ == Seq::<char>::empty()
    &&& s.auth_method@ == "password"@
    &&& s.key_path@ == Seq::<char>::empty()
}

/// The default (empty) SSH profile.
pub open spec fn is_default_favorite(s: SshFavorite) -> bool {
    &&& s.name@ == Seq::<char>::empty()
    &&& s.host@ == Seq::<char>::empty()
    &&& s.port == 22u16
    &&& s.username@ == Seq::<char>::empty()
    &&& s.auth_method@ == "password"@
    &&& s.key_path@ == Seq::<char>::empty()
}

/// The default user-interface parameters.
pub open spec fn is_default_ui(s: UiSettings) -> bool {
    &&& s.theme@ == "dark"@
    &&& s.font_family@ == "Monospace"@
    &&& s.font_size == 11u32
    &&& s.window_width == 1100i32
    &&& s.window_height == 750i32
    &&& s.show_line_numbers == false
    &&& s.max_scrollback_lines == 10000u32
    &&& s.line_ending@ == "LF"@
}

/// The default logging parameters.
pub open spec fn is_default_log(s: LogSettings) -> bool {
    &&& s.enabled == true
    &&& s.level@ == "INFO"@
    &&& s.log_to_file == false
    &&& s.log_directory@ == "logs"@
}

/// The default application configuration.
pub open spec fn is_default_settings(s: AppSettings) -> bool {
    &&& is_default_serial(s.serial)
    &&& is_default_ssh(s.ssh)
    &&& s.ssh_favorites@.len() == 0
    &&& is_default_ui(s.ui)
    &&& is_default_log(s.log)
}

impl Default for SerialSettings {
    fn default() -> (r: Self)
        ensures
            is_default_serial(r),
    {
        SerialSettings {
            port: String::new(),
            baudrate: 115200,
            data_bits: 8,
            parity: String::from_str("None"),
            stop_bits: 1,
            flow_control: String::from_str("None"),
            timeout_ms: 1000,
        }
    }
}

impl Default for SshSettings {
    fn default() -> (r: Self)
        ensures
            is_default_ssh(r),
    {
        SshSettings {
            host: String::from_str("192.168.1.1"),
            port: 22,
            username: String::new(),
            auth_method: String::from_str("password"),
            key_path: String::new(),
        }
    }
}

impl Default for SshFavorite {
    fn default() -> (r: Self)
        ensures
            is_default_favorite(r),
    {
        SshFavorite {
            name: String::new(),
            host: String::new(),
            port: 22,
            username: String::new(),
            auth_method: String::from_str("password"),
            key_path: String::new(),
        }
    }
}

impl Default for UiSettings {
    fn default() -> (r: Self)
        ensures
            is_default_ui(r),
    {
        UiSettings {
            theme: String::from_str("dark"),
            font_family: String::from_str("Monospace"),
            font_size: 11,
            window_width: 1100,
            window_height: 750,
            show_line_numbers: false,
            max_scrollback_lines: 10000,
            line_ending: String::from_str("LF"),
        }
    }
}

impl Default for LogSettings {
    fn default() -> (r: Self)
        ensures
            is_default_log(r),
    {
        LogSettings {
            enabled: true,
            level: String::from_str("INFO"),
            log_to_file: false,
            log_directory: String::from_str("logs"),
        }
    }
}

impl Default for AppSettings {
    fn default() -> (r: Self)
        ensures
            is_default_settings(r),
    {
        AppSettings {
            serial: SerialSettings::default(),
            ssh: SshSettings::default(),
            ssh_favorites: Vec::new(),
            ui: UiSettings::default(),
            log: LogSettings::default(),
        }
    }
}

/// Whether two SSH profiles point at the same target: same host, port and
/// username.
pub open spec fn fav_same_target(a: SshFavorite, b: SshFavorite) -> bool {
    a.host@ == b.host@ && a.port == b.port && a.username@ == b.username@
}

/// The display name of an SSH profile: "USER@HOST:PORT".
pub fn favorite_name(username: &str, host: &str, port: u16) -> (r: String)
    ensures
        r@ == username@ + "@"@ + host@ + ":"@ + dec_seq(port as nat),
{
    String::from_str(username).concat("@").concat(host).concat(":").concat(
        u64_to_dec(port as u64).as_str(),
    )
}

/// The characters a stored line-ending name appends to each sent line:
/// "CR", "CRLF" and "None" name themselves, and anything else means a
/// bare line feed.
pub open spec fn line_ending_chars(name: Seq<char>) -> Seq<char> {
    if name == "CR"@ {
        "\r"@
    } else if name == "CRLF"@ {
        "\r\n"@
    } else if name == "None"@ {
        Seq::<char>::empty()
    } else {
        "\n"@
    }
}

/// Maps a stored line-ending name to the characters appended to each sent
/// line.
pub fn line_ending_str(name: &str) -> (r: &'static str)
    ensures
        r@ == line_ending_chars(name@),
{
    proof {
        reveal_strlit("\r");
        reveal_strlit("\r\n");
        reveal_strlit("\n");
        reveal_strlit("");
    }
    if crate::text::str_eq(name, "CR") {
        "\r"
    } else if crate::text::str_eq(name, "CRLF") {
        "\r\n"
    } else if crate::text::str_eq(name, "None") {
        ""
    } else {
        "\n"
    }
}

/// Owner of the current configuration values.
pub struct SettingsManager {
    pub settings: AppSettings,
}

impl SettingsManager {
    /// Creates a manager holding the default configuration.  The driver
    /// that loads a stored configuration hands it to `from_settings`.
    pub fn new() -> (r: Self)
        ensures
            is_default_settings(r.settings),
    {
        SettingsManager { settings: AppSettings::default() }
    }

    /// Creates a manager holding an already-loaded configuration.
    pub fn from_settings(settings: AppSettings) -> (r: Self)
        ensures
            r.settings == settings,
    {
        SettingsManager { settings }
    }

    /// Read access to the configuration.
    pub fn settings(&self) -> (r: &AppSettings)
        ensures
            *r == self.settings,
    {
        &self.settings
    }

    /// Write access to the configuration.
    pub fn settings_mut(&mut self) -> (r: &mut AppSettings)
        ensures
            *r == old(self).settings,
            final(self).settings == *final(r),
    {
        &mut self.settings
    }

    /// Replaces the theme name, leaving everything else untouched.
    pub fn set_theme(&mut self, theme: &str)
        ensures
            final(self).settings.ui.theme@ == theme@,
            final(self).settings.ui == (UiSettings {
                theme: final(self).settings.ui.theme,
                ..old(self).settings.ui
            }),
            final(self).settings == (AppSettings {
                ui: final(self).settings.ui,
                ..old(self).settings
            }),
    {
        self.settings.ui.theme = String::from_str(theme);
    }

    /// Replaces the remembered window size, leaving everything else
    /// untouched.
    pub fn set_window_size(&mut self, width: i32, height: i32)
        ensures
            final(self).settings.ui == (UiSettings {
                window_width: width,
                window_height: height,
                ..old(self).settings.ui
            }),
            final(self).settings == (AppSettings {
                ui: final(self).settings.ui,
                ..old(self).settings
            }),
    {
        self.settings.ui.window_width = width;
        self.settings.ui.window_height = height;
    }

    /// Adds or updates an SSH profile: the first stored profile for the
    /// same host, port and username is replaced, otherwise the profile is
    /// appended.  Everything else is untouched.
    pub fn add_ssh_favorite(&mut self, favorite: SshFavorite)
        ensures
            final(self).settings == (AppSettings {
                ssh_favorites: final(self).settings.ssh_favorites,
                ..old(self).settings
            }),
            ({
                let favs = old(self).settings.ssh_favorites@;
                let favs2 = final(self).settings.ssh_favorites@;
                if exists|i: int|
                    0 <= i < favs.len() && #[trigger] fav_same_target(favs[i], favorite) {
                    exists|i: int|
                        0 <= i < favs.len() && #[trigger] fav_same_target(favs[i], favorite) && (
                        forall|j: int| 0 <= j < i ==> !fav_same_target(favs[j], favorite))
                            && favs2 == favs.update(i, favorite)
                } else {
                    favs2 == favs.push(favorite)
                }
            }),
    {
        let n = self.settings.ssh_favorites.len();
        let mut i: usize = 0;
        while i < n
            invariant
                old(self) == self,
                n == self.settings.ssh_favorites@.len(),
                i <= n,
                forall|j: int|
                    0 <= j < i ==> !fav_same_target(
                        self.settings.ssh_favorites@[j],
                        favorite,
                    ),
            decreases n - i,
        {
            let same_target = {
                let f = &self.settings.ssh_favorites[i];
                str_eq(f.host.as_str(), favorite.host.as_str()) && f.port == favorite.port
                    && str_eq(f.username.as_str(), favorite.username.as_str())
            };
            if same_target {
                self.settings.ssh_favorites.set(i, favorite);
                proof {
                    let favs = old(self).settings.ssh_favorites@;
                    let ii = i as int;
                    assert(0 <= ii && ii < favs.len() && fav_same_target(favs[ii], favorite) && (
                    forall|j: int| 0 <= j < ii ==> !fav_same_target(favs[j], favorite))
                        && self.settings.ssh_favorites@ == favs.update(ii, favorite));
                }
                return ;
            }
            i = i + 1;
        }
        self.settings.ssh_favorites.push(favorite);
    }

    /// Replaces the line ending, leaving everything else untouched.
    pub fn set_line_ending(&mut self, ending: &str)
        ensures
            final(self).settings.ui.line_ending@ == ending@,
            final(self).settings.ui == (UiSettings {
                line_ending: final(self).settings.ui.line_ending,
                ..old(self).settings.ui
            }),
            final(self).settings == (AppSettings {
                ui: final(self).settings.ui,
                ..old(self).settings
            }),
    {
        self.settings.ui.line_ending = String::from_str(ending);
    }
}

} // verus!
