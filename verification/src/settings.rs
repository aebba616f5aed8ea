//! The application's settings and their defaults.

use vstd::prelude::*;

verus! {

/// What the user chose: the terminal to open and the SSH configuration to read.
#[derive(Debug)]
pub struct AppSettings {
    pub default_terminal: String,
    pub ssh_config_path: String,
}

/// What an `AppSettings` holds, as mathematical values.
pub struct AppSettingsView {
    pub default_terminal: Seq<char>,
    pub ssh_config_path: Seq<char>,
}

impl View for AppSettings {
    type V = AppSettingsView;

    open spec fn view(&self) -> AppSettingsView {
        AppSettingsView {
            default_terminal: self.default_terminal@,
            ssh_config_path: self.ssh_config_path@,
        }
    }
}

impl Clone for AppSettings {
    fn clone(&self) -> (r: Self)
        ensures
            r@ == self@,
    {
        AppSettings {
            default_terminal: self.default_terminal.clone(),
            ssh_config_path: self.ssh_config_path.clone(),
        }
    }
}

/// The terminal that is opened where none was chosen.
pub fn default_terminal() -> (r: String)
    ensures
        r@ == "terminal"@,
{
    String::from_str("terminal")
}

/// The SSH configuration that is read where none was chosen.
pub fn default_ssh_config_path() -> (r: String)
    ensures
        r@ == "~/.ssh/config"@,
{
    String::from_str("~/.ssh/config")
}

impl Default for AppSettings {
    fn default() -> (r: Self)
        ensures
            r@ == (AppSettingsView {
                default_terminal: "terminal"@,
                ssh_config_path: "~/.ssh/config"@,
            }),
    {
        AppSettings {
            default_terminal: default_terminal(),
            ssh_config_path: default_ssh_config_path(),
        }
    }
}

/// The settings that a stored record gives: a field that the record leaves
/// out takes its default.
pub fn settings_from(default_terminal_field: Option<String>, ssh_config_path_field: Option<String>) -> (r:
    AppSettings)
    ensures
        r@.default_terminal == match default_terminal_field {
            Some(t) => t@,
            None => "terminal"@,
        },
        r@.ssh_config_path == match ssh_config_path_field {
            Some(p) => p@,
            None => "~/.ssh/config"@,
        },
{
    AppSettings {
        default_terminal: match default_terminal_field {
            Some(t) => t,
            None => default_terminal(),
        },
        ssh_config_path: match ssh_config_path_field {
            Some(p) => p,
            None => default_ssh_config_path(),
        },
    }
}

} // verus!
