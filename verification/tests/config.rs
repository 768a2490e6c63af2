use rufetch::config::{config_path, warning, ConfigLoad, ConfigWarning};
use rufetch::{read_config, Config};

fn standard() -> Config {
    Config {
        ram_unit: 'K',
        swap_unit: 'K',
        free_mem: true,
        total_mem: true,
        used_mem: true,
        free_swap: true,
        total_swap: true,
        used_swap: true,
        os_name: true,
        os_version: true,
        kernel_version: true,
        host_name: true,
        user_name: true,
        up_time: true,
        cores_count: true,
        cpu_brand: true,
        cpu_frequency: true,
        ascii: String::new(),
    }
}

fn custom() -> Config {
    Config {
        ram_unit: 'G',
        swap_unit: 'M',
        free_mem: false,
        up_time: false,
        cpu_brand: false,
        ascii: " /\\\n/  \\".to_string(),
        ..standard()
    }
}

#[test]
fn default_shows_everything_in_kilobytes_without_art() {
    assert_eq!(Config::default(), standard());
    assert!(Config::default().is_valid());
}

#[test]
fn a_loaded_configuration_is_used() {
    assert_eq!(read_config(ConfigLoad::Loaded(custom())), custom());
    assert_eq!(warning(&ConfigLoad::Loaded(custom())), None);
}

#[test]
fn without_home_directory_the_default_is_used() {
    assert_eq!(read_config(ConfigLoad::NoHomeDirectory), standard());
    assert_eq!(warning(&ConfigLoad::NoHomeDirectory), Some(ConfigWarning::NoHomeDirectory));
}

#[test]
fn without_readable_file_the_default_is_used() {
    assert_eq!(read_config(ConfigLoad::Unreadable), standard());
    assert_eq!(warning(&ConfigLoad::Unreadable), Some(ConfigWarning::Unreadable));
}

#[test]
fn with_malformed_file_the_default_is_used() {
    assert_eq!(read_config(ConfigLoad::Malformed), standard());
    assert_eq!(warning(&ConfigLoad::Malformed), Some(ConfigWarning::Malformed));
}

#[test]
fn a_unit_that_is_none_makes_the_configuration_malformed() {
    let bad_ram = Config { ram_unit: 'X', ..custom() };
    let bad_swap = Config { swap_unit: 'k', ..custom() };
    assert!(!bad_ram.is_valid());
    assert!(!bad_swap.is_valid());
    assert_eq!(warning(&ConfigLoad::Loaded(bad_ram.clone())), Some(ConfigWarning::Malformed));
    assert_eq!(warning(&ConfigLoad::Loaded(bad_swap.clone())), Some(ConfigWarning::Malformed));
    assert_eq!(read_config(ConfigLoad::Loaded(bad_ram)), standard());
    assert_eq!(read_config(ConfigLoad::Loaded(bad_swap)), standard());
}

#[test]
fn every_unit_symbol_is_valid() {
    for ram in ['B', 'K', 'M', 'G', 'T'] {
        for swap in ['B', 'K', 'M', 'G', 'T'] {
            let config = Config { ram_unit: ram, swap_unit: swap, ..standard() };
            assert!(config.is_valid());
            assert_eq!(read_config(ConfigLoad::Loaded(config.clone())), config);
        }
    }
}

#[test]
fn what_read_config_returns_is_valid() {
    let loads = [
        ConfigLoad::NoHomeDirectory,
        ConfigLoad::Unreadable,
        ConfigLoad::Malformed,
        ConfigLoad::Loaded(custom()),
        ConfigLoad::Loaded(Config { ram_unit: '?', ..custom() }),
    ];
    for load in loads {
        assert!(read_config(load).is_valid());
    }
}

#[test]
fn warning_messages() {
    assert_eq!(
        ConfigWarning::NoHomeDirectory.message(),
        "Can't find your home directory address."
    );
    assert_eq!(ConfigWarning::Unreadable.message(), "Can't open/read config file");
    assert_eq!(
        ConfigWarning::Malformed.message(),
        "The structure of your config file is not correct.\nUsing default config."
    );
}

#[test]
fn the_path_is_below_dot_config() {
    assert_eq!(config_path("/home/me", "linux"), "/home/me/.config/rufetch/rufetch.toml");
    assert_eq!(config_path("/Users/me", "macos"), "/Users/me/.config/rufetch/rufetch.toml");
    assert_eq!(config_path("", "freebsd"), "/.config/rufetch/rufetch.toml");
    assert_eq!(config_path("/home/me", "Windows"), "/home/me/.config/rufetch/rufetch.toml");
}

#[test]
fn the_path_on_windows_is_below_app_data() {
    assert_eq!(
        config_path("C:\\Users\\me", "windows"),
        "C:\\Users\\me\\AppData\\Local\\rufetch\\rufetch.toml"
    );
}
