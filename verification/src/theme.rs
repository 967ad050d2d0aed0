//! Themes: the closed set of looks the terminal offers, the mapping from
//! stored names to themes, and the style sheet of each.
//!
//! Applying a theme to a running user interface is the driver's concern;
//! everything that can be computed from the theme value alone is verified
//! here.

use vstd::prelude::*;
use vstd::string::StringExecFns;
use crate::text::{ci_matches, str_ci_matches};

verus! {

/// The available themes.
#[derive(Debug, Clone, Copy, PartialEq, Eq, Structural)]
pub enum Theme {
    Light,
    Dark,
    Hacker,
}

/// The theme a stored name selects, compared without regard to ASCII
/// case; an unrecognized name selects the dark theme.
pub open spec fn theme_of_name(s: Seq<char>) -> Theme {
    if ci_matches(s, "light"@) || ci_matches(s, "clair"@) {
        Theme::Light
    } else if ci_matches(s, "hacker"@) || ci_matches(s, "matrix"@) {
        Theme::Hacker
    } else {
        Theme::Dark
    }
}

/// The display name of a theme.
pub open spec fn display_name_seq(t: Theme) -> Seq<char> {
    match t {
        Theme::Light => "Clair"@,
        Theme::Dark => "Sombre"@,
        Theme::Hacker => "Hacker"@,
    }
}

/// The identifier a theme is stored under.
pub open spec fn id_seq(t: Theme) -> Seq<char> {
    match t {
        Theme::Light => "light"@,
        Theme::Dark => "dark"@,
        Theme::Hacker => "hacker"@,
    }
}

impl Theme {
    /// Selects the theme a stored name means, without regard to ASCII
    /// case; anything unrecognized means the dark theme.
    pub fn from_str_name(s: &str) -> (r: Self)
        ensures
            r == theme_of_name(s@),
    {
        if str_ci_matches(s, "light") || str_ci_matches(s, "clair") {
            Theme::Light
        } else if str_ci_matches(s, "hacker") || str_ci_matches(s, "matrix") {
            Theme::Hacker
        } else {
            Theme::Dark
        }
    }

    /// The display name.
    pub fn display_name(&self) -> (r: &'static str)
        ensures
            r@ == display_name_seq(*self),
    {
        match self {
            Theme::Light => "Clair",
            Theme::Dark => "Sombre",
            Theme::Hacker => "Hacker",
        }
    }

    /// The identifier the theme is stored under.
    pub fn id(&self) -> (r: &'static str)
        ensures
            r@ == id_seq(*self),
    {
        match self {
            Theme::Light => "light",
            Theme::Dark => "dark",
            Theme::Hacker => "hacker",
        }
    }

    /// All themes, in presentation order.
    pub fn all() -> (r: Vec<Theme>)
        ensures
            r@ =~= seq![Theme::Light, Theme::Dark, Theme::Hacker],
    {
        let mut v: Vec<Theme> = Vec::new();
        v.push(Theme::Light);
        v.push(Theme::Dark);
        v.push(Theme::Hacker);
        v
    }
}

/// The style sheet of the light theme.
pub open spec fn light_css() -> Seq<char> {
    "\n.terminal-view { background-color: #fafafa; color: #2e2e2e; font-family: \"Monospace\"; font-size: 11pt; padding: 8px; }\n.input-entry { font-family: \"Monospace\"; font-size: 11pt; min-height: 36px; }\n.connection-panel { padding: 6px 12px; }\n.status-connected { color: #26a269; font-weight: bold; }\n.status-disconnected { color: #c01c28; font-weight: bold; }\n"@
}

/// The style sheet of the dark theme.
pub open spec fn dark_css() -> Seq<char> {
    "\n.terminal-view { background-color: #1e1e2e; color: #cdd6f4; font-family: \"Monospace\"; font-size: 11pt; padding: 8px; }\n.input-entry { font-family: \"Monospace\"; font-size: 11pt; min-height: 36px; }\n.connection-panel { padding: 6px 12px; }\n.status-connected { color: #a6e3a1; font-weight: bold; }\n.status-disconnected { color: #f38ba8; font-weight: bold; }\n"@
}

/// The style sheet of the hacker theme.
pub open spec fn hacker_css() -> Seq<char> {
    "\n.terminal-view { background-color: #0a0a0a; color: #00ff41; font-family: \"Monospace\"; font-size: 11pt; padding: 8px; text-shadow: 0 0 3px rgba(0, 255, 65, 0.3); }\n.input-entry { font-family: \"Monospace\"; font-size: 11pt; min-height: 36px; color: #00ff41; }\n.connection-panel { padding: 6px 12px; }\n.status-connected { color: #00ff41; font-weight: bold; }\n.status-disconnected { color: #ff3333; font-weight: bold; }\n.hacker-title { color: #00ff41; font-weight: bold; }\n"@
}

/// The style sheet a theme uses.
pub open spec fn css_seq(t: Theme) -> Seq<char> {
    match t {
        Theme::Light => light_css(),
        Theme::Dark => dark_css(),
        Theme::Hacker => hacker_css(),
    }
}

/// Computes each theme's style sheet; the driver hands it to the toolkit.
pub struct ThemeManager;

impl ThemeManager {
    /// The style sheet for a theme.
    pub fn css_for_theme(theme: Theme) -> (r: String)
        ensures
            r@ == css_seq(theme),
    {
        match theme {
            Theme::Light => String::from_str(
                "\n.terminal-view { background-color: #fafafa; color: #2e2e2e; font-family: \"Monospace\"; font-size: 11pt; padding: 8px; }\n.input-entry { font-family: \"Monospace\"; font-size: 11pt; min-height: 36px; }\n.connection-panel { padding: 6px 12px; }\n.status-connected { color: #26a269; font-weight: bold; }\n.status-disconnected { color: #c01c28; font-weight: bold; }\n",
            ),
            Theme::Dark => String::from_str(
                "\n.terminal-view { background-color: #1e1e2e; color: #cdd6f4; font-family: \"Monospace\"; font-size: 11pt; padding: 8px; }\n.input-entry { font-family: \"Monospace\"; font-size: 11pt; min-height: 36px; }\n.connection-panel { padding: 6px 12px; }\n.status-connected { color: #a6e3a1; font-weight: bold; }\n.status-disconnected { color: #f38ba8; font-weight: bold; }\n",
            ),
            Theme::Hacker => String::from_str(
                "\n.terminal-view { background-color: #0a0a0a; color: #00ff41; font-family: \"Monospace\"; font-size: 11pt; padding: 8px; text-shadow: 0 0 3px rgba(0, 255, 65, 0.3); }\n.input-entry { font-family: \"Monospace\"; font-size: 11pt; min-height: 36px; color: #00ff41; }\n.connection-panel { padding: 6px 12px; }\n.status-connected { color: #00ff41; font-weight: bold; }\n.status-disconnected { color: #ff3333; font-weight: bold; }\n.hacker-title { color: #00ff41; font-weight: bold; }\n",
            ),
        }
    }
}

} // verus!
