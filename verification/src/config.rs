//! The configuration: which metrics to show, in which units, beside which
//! art; and what to fall back on when no usable configuration can be had.

use vstd::prelude::*;
use crate::units::{is_unit_symbol, Unit};

verus! {

/// What the user has configured. Every toggle switches one metric line on or
/// off; the two units are symbols of `Unit`; `ascii` is the art, its lines
/// separated by line feeds.
#[derive(Clone, Debug, PartialEq, Eq)]
pub struct Config {
    pub ram_unit: char,
    pub swap_unit: char,
    pub free_mem: bool,
    pub total_mem: bool,
    pub used_mem: bool,
    pub free_swap: bool,
    pub total_swap: bool,
    pub used_swap: bool,
    pub os_name: bool,
    pub os_version: bool,
    pub kernel_version: bool,
    pub host_name: bool,
    pub user_name: bool,
    pub up_time: bool,
    pub cores_count: bool,
    pub cpu_brand: bool,
    pub cpu_frequency: bool,
    pub ascii: String,
}

/// A configuration as plain values, the art as its characters.
pub ghost struct ConfigView {
    pub ram_unit: char,
    pub swap_unit: char,
    pub free_mem: bool,
    pub total_mem: bool,
    pub used_mem: bool,
    pub free_swap: bool,
    pub total_swap: bool,
    pub used_swap: bool,
    pub os_name: bool,
    pub os_version: bool,
    pub kernel_version: bool,
    pub host_name: bool,
    pub user_name: bool,
    pub up_time: bool,
    pub cores_count: bool,
    pub cpu_brand: bool,
    pub cpu_frequency: bool,
    pub ascii: Seq<char>,
}

impl View for Config {
    type V = ConfigView;

    open spec fn view(&self) -> ConfigView {
        ConfigView {
            ram_unit: self.ram_unit,
            swap_unit: self.swap_unit,
            free_mem: self.free_mem,
            total_mem: self.total_mem,
            used_mem: self.used_mem,
            free_swap: self.free_swap,
            total_swap: self.total_swap,
            used_swap: self.used_swap,
            os_name: self.os_name,
            os_version: self.os_version,
            kernel_version: self.kernel_version,
            host_name: self.host_name,
            user_name: self.user_name,
            up_time: self.up_time,
            cores_count: self.cores_count,
            cpu_brand: self.cpu_brand,
            cpu_frequency: self.cpu_frequency,
            ascii: self.ascii@,
        }
    }
}

impl ConfigView {
    /// Whether both units are symbols of a unit.
    pub open spec fn valid(self) -> bool {
        is_unit_symbol(self.ram_unit) && is_unit_symbol(self.swap_unit)
    }

    /// The default configuration: every metric shown, both units kilobytes,
    /// no art.
    pub open spec fn standard() -> ConfigView {
        ConfigView {
            ram_unit: 'K',
            swap_unit: 'K',
            free_mem: true,
            total_mem: true,
            used_mem: true,
            free_swap: true,
            total_swap: true,
            used_swap: true,
            os_name: true,
            os_version: true,
            kernel_version: true,
            host_name: true,
            user_name: true,
            up_time: true,
            cores_count: true,
            cpu_brand: true,
            cpu_frequency: true,
            ascii: Seq::empty(),
        }
    }
}

impl Config {
    /// Whether both units are symbols of a unit.
    pub open spec fn valid(&self) -> bool {
        self@.valid()
    }

    /// Tells whether both units are symbols of a unit.
    pub fn is_valid(&self) -> (valid: bool)
        ensures
            valid == self.valid(),
    {
        Unit::from_symbol(self.ram_unit).is_some() && Unit::from_symbol(self.swap_unit).is_some()
    }
}

impl Default for Config {
    /// Every metric shown, both units kilobytes, no art.
    fn default() -> (config: Config)
        ensures
            config@ == ConfigView::standard(),
            config.valid(),
    {
        Config {
            ram_unit: 'K',
            swap_unit: 'K',
            free_mem: true,
            total_mem: true,
            used_mem: true,
            free_swap: true,
            total_swap: true,
            used_swap: true,
            os_name: true,
            os_version: true,
            kernel_version: true,
            host_name: true,
            user_name: true,
            up_time: true,
            cores_count: true,
            cpu_brand: true,
            cpu_frequency: true,
            ascii: String::new(),
        }
    }
}

/// How far the search for the user's configuration got.
#[derive(Clone, Debug, PartialEq, Eq)]
pub enum ConfigLoad {
    /// The home directory is not known.
    NoHomeDirectory,
    /// The configuration file could not be opened or read.
    Unreadable,
    /// The file was read but does not have the structure of a configuration.
    Malformed,
    /// The file was read and holds this configuration.
    Loaded(Config),
}

/// Why the default configuration is used in place of the user's.
#[derive(Clone, Copy, Debug, PartialEq, Eq, Structural)]
pub enum ConfigWarning {
    /// The home directory is not known.
    NoHomeDirectory,
    /// The configuration file could not be opened or read.
    Unreadable,
    /// The file does not hold a usable configuration.
    Malformed,
}

impl ConfigWarning {
    /// The text of the warning.
    pub open spec fn text(self) -> Seq<char> {
        match self {
            ConfigWarning::NoHomeDirectory => "Can't find your home directory address."@,
            ConfigWarning::Unreadable => "Can't open/read config file"@,
            ConfigWarning::Malformed => {
                "The structure of your config file is not correct.\nUsing default config."@
            },
        }
    }

    /// The line, or lines, to show the user.
    pub fn message(self) -> (message: &'static str)
        ensures
            message@ == self.text(),
    {
        match self {
            ConfigWarning::NoHomeDirectory => "Can't find your home directory address.",
            ConfigWarning::Unreadable => "Can't open/read config file",
            ConfigWarning::Malformed => {
                "The structure of your config file is not correct.\nUsing default config."
            },
        }
    }
}

/// The warning that a search for the configuration ends with: none when a
/// valid configuration was loaded. A loaded configuration with a unit that is
/// no unit counts as malformed.
pub open spec fn warning_of(load: ConfigLoad) -> Option<ConfigWarning> {
    match load {
        ConfigLoad::NoHomeDirectory => Some(ConfigWarning::NoHomeDirectory),
        ConfigLoad::Unreadable => Some(ConfigWarning::Unreadable),
        ConfigLoad::Malformed => Some(ConfigWarning::Malformed),
        ConfigLoad::Loaded(config) => if config.valid() {
            None
        } else {
            Some(ConfigWarning::Malformed)
        },
    }
}

/// The configuration that a search ends with: the loaded one if it is
/// valid, else the default.
pub open spec fn resolved(load: ConfigLoad) -> ConfigView {
    match load {
        ConfigLoad::Loaded(config) => if config.valid() {
            config@
        } else {
            ConfigView::standard()
        },
        _ => ConfigView::standard(),
    }
}

/// Tells which warning, if any, a search for the configuration ends with.
pub fn warning(load: &ConfigLoad) -> (warning: Option<ConfigWarning>)
    ensures
        warning == warning_of(*load),
{
    match load {
        ConfigLoad::NoHomeDirectory => Some(ConfigWarning::NoHomeDirectory),
        ConfigLoad::Unreadable => Some(ConfigWarning::Unreadable),
        ConfigLoad::Malformed => Some(ConfigWarning::Malformed),
        ConfigLoad::Loaded(config) => if config.is_valid() {
            None
        } else {
            Some(ConfigWarning::Malformed)
        },
    }
}

/// Settles on a configuration: the loaded one if there is one and its units
/// are units, else the default. The result is always valid.
pub fn read_config(load: ConfigLoad) -> (config: Config)
    ensures
        config@ == resolved(load),
        config.valid(),
{
    match load {
        ConfigLoad::Loaded(config) => if config.is_valid() {
            config
        } else {
            Config::default()
        },
        _ => Config::default(),
    }
}

/// The part of the configuration file's path below the home directory.
pub open spec fn path_below_home(os: Seq<char>) -> Seq<char> {
    if os == "windows"@ {
        "\\AppData\\Local\\rufetch\\rufetch.toml"@
    } else {
        "/.config/rufetch/rufetch.toml"@
    }
}

/// The path of the configuration file for a home directory and the name of
/// an operating system: below `AppData\Local` on `windows`, below `.config`
/// anywhere else.
pub fn config_path(home: &str, os: &str) -> (path: String)
    ensures
        path@ == home@ + path_below_home(os@),
{
    let mut path: String = String::from_str(home);
    if String::from_str(os) == String::from_str("windows") {
        path.append("\\AppData\\Local\\rufetch\\rufetch.toml");
    } else {
        path.append("/.config/rufetch/rufetch.toml");
    }
    path
}

} // verus!
