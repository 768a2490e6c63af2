use rufetch::get_info::{CpuInfo, OsFacts, OsInfo, Processor, Usage};
use rufetch::metrics::format_metrics;
use rufetch::summary::{metric_lines, HostFacts};
use rufetch::{summary, Config};

fn shown_os() -> OsInfo {
    OsInfo {
        os_name: "Linux".to_string(),
        os_version: "1.0".to_string(),
        kernel_version: "6.1".to_string(),
        host_name: "box".to_string(),
        user_name: "me".to_string(),
        up_time: "42".to_string(),
    }
}

fn shown_cpu() -> CpuInfo {
    CpuInfo {
        cores_count: "8".to_string(),
        frequency: "3200".to_string(),
        brand: "Acme".to_string(),
    }
}

fn nothing_shown() -> Config {
    Config {
        free_mem: false,
        total_mem: false,
        used_mem: false,
        free_swap: false,
        total_swap: false,
        used_swap: false,
        os_name: false,
        os_version: false,
        kernel_version: false,
        host_name: false,
        user_name: false,
        up_time: false,
        cores_count: false,
        cpu_brand: false,
        cpu_frequency: false,
        ..Config::default()
    }
}

fn host() -> HostFacts {
    HostFacts {
        memory: Usage { total: 16_000_000, free: 4_000_400, used: 11_999_600 },
        swap: Usage { total: 2_000_000, free: 1_499_999, used: 500_001 },
        os: OsFacts {
            name: Some("Linux".to_string()),
            os_version: None,
            kernel_version: Some("6.1".to_string()),
            host_name: "box".to_string(),
            user_name: "me".to_string(),
            up_time: 3_600,
        },
        processors: vec![
            Processor { frequency: 3_000, brand: "Acme".to_string() },
            Processor { frequency: 3_500, brand: "Acme".to_string() },
        ],
    }
}

#[test]
fn every_metric_in_its_order() {
    let memory = Usage { total: 16_000_000, free: 4_000_000, used: 12_000_000 };
    let swap = Usage { total: 2_000, free: 1_500, used: 500 };
    let lines = format_metrics(&Config::default(), &memory, &swap, &shown_os(), &shown_cpu());
    assert_eq!(
        lines,
        vec![
            " Total memory: 16000000",
            " Free memory: 4000000",
            " Used memory: 12000000",
            " Total swap: 2000",
            " Free swap: 1500",
            " Used swap: 500",
            " Operating system: Linux",
            " OS version: 1.0",
            " Kernel version: 6.1",
            " Host: box",
            " User: me",
            " Uptime: 42",
            " Cpu cores: 8",
            " Cpu frequency: 3200",
            " Cpu brand: Acme",
        ]
    );
}

#[test]
fn a_metric_switched_off_has_no_line() {
    let memory = Usage { total: 1, free: 2, used: 3 };
    let swap = Usage { total: 4, free: 5, used: 6 };
    let config = Config {
        free_mem: false,
        total_swap: false,
        used_swap: false,
        os_version: false,
        host_name: false,
        cpu_frequency: false,
        ..Config::default()
    };
    let lines = format_metrics(&config, &memory, &swap, &shown_os(), &shown_cpu());
    assert_eq!(
        lines,
        vec![
            " Total memory: 1",
            " Used memory: 3",
            " Free swap: 5",
            " Operating system: Linux",
            " Kernel version: 6.1",
            " User: me",
            " Uptime: 42",
            " Cpu cores: 8",
            " Cpu brand: Acme",
        ]
    );
}

#[test]
fn each_toggle_shows_its_own_line() {
    let memory = Usage { total: 1, free: 2, used: 3 };
    let swap = Usage { total: 4, free: 5, used: 6 };
    let cases: Vec<(Config, &str)> = vec![
        (Config { total_mem: true, ..nothing_shown() }, " Total memory: 1"),
        (Config { free_mem: true, ..nothing_shown() }, " Free memory: 2"),
        (Config { used_mem: true, ..nothing_shown() }, " Used memory: 3"),
        (Config { total_swap: true, ..nothing_shown() }, " Total swap: 4"),
        (Config { free_swap: true, ..nothing_shown() }, " Free swap: 5"),
        (Config { used_swap: true, ..nothing_shown() }, " Used swap: 6"),
        (Config { os_name: true, ..nothing_shown() }, " Operating system: Linux"),
        (Config { os_version: true, ..nothing_shown() }, " OS version: 1.0"),
        (Config { kernel_version: true, ..nothing_shown() }, " Kernel version: 6.1"),
        (Config { host_name: true, ..nothing_shown() }, " Host: box"),
        (Config { user_name: true, ..nothing_shown() }, " User: me"),
        (Config { up_time: true, ..nothing_shown() }, " Uptime: 42"),
        (Config { cores_count: true, ..nothing_shown() }, " Cpu cores: 8"),
        (Config { cpu_frequency: true, ..nothing_shown() }, " Cpu frequency: 3200"),
        (Config { cpu_brand: true, ..nothing_shown() }, " Cpu brand: Acme"),
    ];
    for (config, line) in cases {
        let lines = format_metrics(&config, &memory, &swap, &shown_os(), &shown_cpu());
        assert_eq!(lines, vec![line]);
    }
}

#[test]
fn nothing_switched_on_gives_no_lines() {
    let memory = Usage { total: 1, free: 2, used: 3 };
    let lines = format_metrics(&nothing_shown(), &memory, &memory, &shown_os(), &shown_cpu());
    assert_eq!(lines, Vec::<String>::new());
}

#[test]
fn metric_lines_convert_and_replace() {
    let config = Config { ram_unit: 'G', swap_unit: 'M', ..Config::default() };
    assert_eq!(
        metric_lines(&config, &host()),
        vec![
            " Total memory: 16",
            " Free memory: 4",
            " Used memory: 12",
            " Total swap: 2000",
            " Free swap: 1500",
            " Used swap: 500",
            " Operating system: Linux",
            " OS version: NONE",
            " Kernel version: 6.1",
            " Host: box",
            " User: me",
            " Uptime: 3600",
            " Cpu cores: 2",
            " Cpu frequency: 3250",
            " Cpu brand: Acme",
        ]
    );
}

#[test]
fn summary_puts_the_art_beside_the_metrics() {
    let config = Config {
        ram_unit: 'G',
        ascii: " /\\_/\\\n( o.o )\n > ^ <\n".to_string(),
        ..nothing_shown()
    };
    let config = Config { total_mem: true, host_name: true, user_name: true, cores_count: true, ..config };
    assert_eq!(
        summary(&config, &host()),
        vec![
            " /\\_/\\     Total memory: 16",
            "( o.o )    Host: box",
            " > ^ <     User: me",
            "           Cpu cores: 2",
        ]
    );
}

#[test]
fn summary_without_art_is_the_metric_lines() {
    let config = Config::default();
    assert_eq!(summary(&config, &host()), metric_lines(&config, &host()));
}

#[test]
fn summary_without_metrics_is_the_padded_art() {
    let config = Config { ascii: "ab\r\nabcd\n\nc".to_string(), ..nothing_shown() };
    assert_eq!(summary(&config, &host()), vec!["ab     ", "abcd   ", "       ", "c      "]);
}

#[test]
fn summary_of_nothing_is_empty() {
    assert_eq!(summary(&nothing_shown(), &host()), Vec::<String>::new());
}
