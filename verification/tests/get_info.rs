use rufetch::get_info::{CpuInfo, OsFacts, OsInfo, Processor, Usage};
use rufetch::{cpu_info, get_mem, get_swap, os_info, Config};

fn units(ram_unit: char, swap_unit: char) -> Config {
    Config { ram_unit, swap_unit, ..Config::default() }
}

fn processor(frequency: u64, brand: &str) -> Processor {
    Processor { frequency, brand: brand.to_string() }
}

#[test]
fn memory_is_shown_in_the_memory_unit() {
    let memory = Usage { total: 16_266_892, free: 8_450_499, used: 7_816_393 };
    assert_eq!(get_mem(&memory, &units('K', 'B')), memory);
    assert_eq!(
        get_mem(&memory, &units('M', 'B')),
        Usage { total: 16_267, free: 8_450, used: 7_816 }
    );
    assert_eq!(get_mem(&memory, &units('G', 'B')), Usage { total: 16, free: 8, used: 8 });
    assert_eq!(get_mem(&memory, &units('T', 'B')), Usage { total: 0, free: 0, used: 0 });
    assert_eq!(
        get_mem(&memory, &units('B', 'T')),
        Usage { total: 16_266_892_000, free: 8_450_499_000, used: 7_816_393_000 }
    );
}

#[test]
fn swap_is_shown_in_the_swap_unit() {
    let swap = Usage { total: 2_097_148, free: 2_097_148, used: 0 };
    assert_eq!(get_swap(&swap, &units('T', 'K')), swap);
    assert_eq!(get_swap(&swap, &units('T', 'M')), Usage { total: 2_097, free: 2_097, used: 0 });
    assert_eq!(get_swap(&swap, &units('T', 'G')), Usage { total: 2, free: 2, used: 0 });
    assert_eq!(
        get_swap(&swap, &units('T', 'B')),
        Usage { total: 2_097_148_000, free: 2_097_148_000, used: 0 }
    );
}

#[test]
fn told_facts_are_shown_as_they_are() {
    let facts = OsFacts {
        name: Some("Debian GNU/Linux".to_string()),
        os_version: Some("12".to_string()),
        kernel_version: Some("6.1.0-18-amd64".to_string()),
        host_name: "box".to_string(),
        user_name: "me".to_string(),
        up_time: 86_400,
    };
    assert_eq!(
        os_info(&facts),
        OsInfo {
            os_name: "Debian GNU/Linux".to_string(),
            os_version: "12".to_string(),
            kernel_version: "6.1.0-18-amd64".to_string(),
            host_name: "box".to_string(),
            user_name: "me".to_string(),
            up_time: "86400".to_string(),
        }
    );
}

#[test]
fn untold_facts_are_shown_as_none() {
    let facts = OsFacts {
        name: None,
        os_version: None,
        kernel_version: None,
        host_name: String::new(),
        user_name: "root".to_string(),
        up_time: 0,
    };
    assert_eq!(
        os_info(&facts),
        OsInfo {
            os_name: "NONE".to_string(),
            os_version: "NONE".to_string(),
            kernel_version: "NONE".to_string(),
            host_name: String::new(),
            user_name: "root".to_string(),
            up_time: "0".to_string(),
        }
    );
}

#[test]
fn processors_are_counted_and_their_frequencies_averaged() {
    let processors = vec![
        processor(3_000, "Acme 9000"),
        processor(3_200, "Other"),
        processor(3_401, "Other"),
    ];
    assert_eq!(
        cpu_info(&processors),
        CpuInfo {
            cores_count: "3".to_string(),
            frequency: "3200".to_string(),
            brand: "Acme 9000".to_string(),
        }
    );
}

#[test]
fn one_processor() {
    assert_eq!(
        cpu_info(&vec![processor(2_401, "Solo")]),
        CpuInfo {
            cores_count: "1".to_string(),
            frequency: "2401".to_string(),
            brand: "Solo".to_string(),
        }
    );
}

#[test]
fn the_mean_frequency_is_rounded_down() {
    let processors = vec![processor(1, "a"), processor(2, "b")];
    assert_eq!(cpu_info(&processors).frequency, "1");
    let processors = vec![processor(0, "a"), processor(0, "b"), processor(2, "c")];
    assert_eq!(cpu_info(&processors).frequency, "0");
}

#[test]
fn the_largest_frequencies_do_not_overflow() {
    let processors = vec![processor(u64::MAX, "a"), processor(u64::MAX, "b"), processor(u64::MAX, "c")];
    assert_eq!(cpu_info(&processors).frequency, u64::MAX.to_string());
}

#[test]
fn without_processors_the_values_are_zero_and_none() {
    assert_eq!(
        cpu_info(&Vec::new()),
        CpuInfo {
            cores_count: "0".to_string(),
            frequency: "0".to_string(),
            brand: "NONE".to_string(),
        }
    );
}
