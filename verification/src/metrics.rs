//! The metric lines: one line of label and value for each metric that the
//! configuration shows, in a fixed order.

use vstd::prelude::*;
use vstd::seq_lib::lemma_concat_associative;
use crate::config::{Config, ConfigView};
use crate::decimal::{decimal, decimal_string};
use crate::get_info::{CpuInfo, CpuInfoView, OsInfo, OsInfoView, Usage};
use crate::text::{lemma_texts, texts};

verus! {

/// The line of one metric, label then value, if the metric is shown; no line
/// if it is not.
pub open spec fn entry(shown: bool, label: Seq<char>, value: Seq<char>) -> Seq<Seq<char>> {
    if shown {
        seq![label + value]
    } else {
        Seq::empty()
    }
}

/// The lines of the memory: total, free, used.
pub open spec fn memory_lines(config: ConfigView, memory: Usage) -> Seq<Seq<char>> {
    entry(config.total_mem, " Total memory: "@, decimal(memory.total as nat)) + entry(
        config.free_mem,
        " Free memory: "@,
        decimal(memory.free as nat),
    ) + entry(config.used_mem, " Used memory: "@, decimal(memory.used as nat))
}

/// The lines of the swap: total, free, used.
pub open spec fn swap_lines(config: ConfigView, swap: Usage) -> Seq<Seq<char>> {
    entry(config.total_swap, " Total swap: "@, decimal(swap.total as nat)) + entry(
        config.free_swap,
        " Free swap: "@,
        decimal(swap.free as nat),
    ) + entry(config.used_swap, " Used swap: "@, decimal(swap.used as nat))
}

/// The lines of the operating system: name, version, kernel version, host,
/// user, up time.
pub open spec fn os_lines(config: ConfigView, os: OsInfoView) -> Seq<Seq<char>> {
    entry(config.os_name, " Operating system: "@, os.os_name) + entry(
        config.os_version,
        " OS version: "@,
        os.os_version,
    ) + entry(config.kernel_version, " Kernel version: "@, os.kernel_version) + entry(
        config.host_name,
        " Host: "@,
        os.host_name,
    ) + entry(config.user_name, " User: "@, os.user_name) + entry(
        config.up_time,
        " Uptime: "@,
        os.up_time,
    )
}

/// The lines of the processors: number of cores, frequency, brand.
pub open spec fn cpu_lines(config: ConfigView, cpu: CpuInfoView) -> Seq<Seq<char>> {
    entry(config.cores_count, " Cpu cores: "@, cpu.cores_count) + entry(
        config.cpu_frequency,
        " Cpu frequency: "@,
        cpu.frequency,
    ) + entry(config.cpu_brand, " Cpu brand: "@, cpu.brand)
}

/// All metric lines: memory, then swap, then operating system, then
/// processors. A metric that the configuration switches off has no line.
pub open spec fn metric_text(
    config: ConfigView,
    memory: Usage,
    swap: Usage,
    os: OsInfoView,
    cpu: CpuInfoView,
) -> Seq<Seq<char>> {
    memory_lines(config, memory) + swap_lines(config, swap) + os_lines(config, os) + cpu_lines(
        config,
        cpu,
    )
}

/// Appends the line of one metric to `lines` if the metric is shown.
fn push_entry(lines: &mut Vec<String>, shown: bool, label: &str, value: &str)
    ensures
        texts(final(lines)@) == texts(old(lines)@) + entry(shown, label@, value@),
{
    if shown {
        let mut line: String = String::from_str(label);
        line.append(value);
        lines.push(line);
    }
}

/// Appends the lines of the memory.
fn push_memory(lines: &mut Vec<String>, config: &Config, memory: &Usage)
    ensures
        texts(final(lines)@) == texts(old(lines)@) + memory_lines(config@, *memory),
{
    let total: String = decimal_string(memory.total);
    let free: String = decimal_string(memory.free);
    let used: String = decimal_string(memory.used);
    let ghost before: Seq<Seq<char>> = texts(lines@);
    let ghost first: Seq<Seq<char>> = entry(config.total_mem, " Total memory: "@, total@);
    let ghost second: Seq<Seq<char>> = entry(config.free_mem, " Free memory: "@, free@);
    let ghost third: Seq<Seq<char>> = entry(config.used_mem, " Used memory: "@, used@);
    push_entry(lines, config.total_mem, " Total memory: ", total.as_str());
    push_entry(lines, config.free_mem, " Free memory: ", free.as_str());
    push_entry(lines, config.used_mem, " Used memory: ", used.as_str());
    proof {
        lemma_concat_associative(before, first, second);
        lemma_concat_associative(before, first + second, third);
    }
}

/// Appends the lines of the swap.
fn push_swap(lines: &mut Vec<String>, config: &Config, swap: &Usage)
    ensures
        texts(final(lines)@) == texts(old(lines)@) + swap_lines(config@, *swap),
{
    let total: String = decimal_string(swap.total);
    let free: String = decimal_string(swap.free);
    let used: String = decimal_string(swap.used);
    let ghost before: Seq<Seq<char>> = texts(lines@);
    let ghost first: Seq<Seq<char>> = entry(config.total_swap, " Total swap: "@, total@);
    let ghost second: Seq<Seq<char>> = entry(config.free_swap, " Free swap: "@, free@);
    let ghost third: Seq<Seq<char>> = entry(config.used_swap, " Used swap: "@, used@);
    push_entry(lines, config.total_swap, " Total swap: ", total.as_str());
    push_entry(lines, config.free_swap, " Free swap: ", free.as_str());
    push_entry(lines, config.used_swap, " Used swap: ", used.as_str());
    proof {
        lemma_concat_associative(before, first, second);
        lemma_concat_associative(before, first + second, third);
    }
}

/// Appends the lines of the operating system.
fn push_os(lines: &mut Vec<String>, config: &Config, os: &OsInfo)
    ensures
        texts(final(lines)@) == texts(old(lines)@) + os_lines(config@, os@),
{
    let ghost before: Seq<Seq<char>> = texts(lines@);
    let ghost name: Seq<Seq<char>> = entry(config.os_name, " Operating system: "@, os.os_name@);
    let ghost version: Seq<Seq<char>> = entry(config.os_version, " OS version: "@, os.os_version@);
    let ghost kernel: Seq<Seq<char>> = entry(
        config.kernel_version,
        " Kernel version: "@,
        os.kernel_version@,
    );
    let ghost host: Seq<Seq<char>> = entry(config.host_name, " Host: "@, os.host_name@);
    let ghost user: Seq<Seq<char>> = entry(config.user_name, " User: "@, os.user_name@);
    let ghost up_time: Seq<Seq<char>> = entry(config.up_time, " Uptime: "@, os.up_time@);
    push_entry(lines, config.os_name, " Operating system: ", os.os_name.as_str());
    push_entry(lines, config.os_version, " OS version: ", os.os_version.as_str());
    push_entry(lines, config.kernel_version, " Kernel version: ", os.kernel_version.as_str());
    push_entry(lines, config.host_name, " Host: ", os.host_name.as_str());
    push_entry(lines, config.user_name, " User: ", os.user_name.as_str());
    push_entry(lines, config.up_time, " Uptime: ", os.up_time.as_str());
    proof {
        lemma_concat_associative(before, name, version);
        lemma_concat_associative(before, name + version, kernel);
        lemma_concat_associative(before, name + version + kernel, host);
        lemma_concat_associative(before, name + version + kernel + host, user);
        lemma_concat_associative(before, name + version + kernel + host + user, up_time);
    }
}

/// Appends the lines of the processors.
fn push_cpu(lines: &mut Vec<String>, config: &Config, cpu: &CpuInfo)
    ensures
        texts(final(lines)@) == texts(old(lines)@) + cpu_lines(config@, cpu@),
{
    let ghost before: Seq<Seq<char>> = texts(lines@);
    let ghost cores: Seq<Seq<char>> = entry(config.cores_count, " Cpu cores: "@, cpu.cores_count@);
    let ghost frequency: Seq<Seq<char>> = entry(
        config.cpu_frequency,
        " Cpu frequency: "@,
        cpu.frequency@,
    );
    let ghost brand: Seq<Seq<char>> = entry(config.cpu_brand, " Cpu brand: "@, cpu.brand@);
    push_entry(lines, config.cores_count, " Cpu cores: ", cpu.cores_count.as_str());
    push_entry(lines, config.cpu_frequency, " Cpu frequency: ", cpu.frequency.as_str());
    push_entry(lines, config.cpu_brand, " Cpu brand: ", cpu.brand.as_str());
    proof {
        lemma_concat_associative(before, cores, frequency);
        lemma_concat_associative(before, cores + frequency, brand);
    }
}

/// Formats the metric lines for values that are ready to be shown: the
/// memory and the swap in their configured units, the texts of the operating
/// system and of the processors.
pub fn format_metrics(
    config: &Config,
    memory: &Usage,
    swap: &Usage,
    os: &OsInfo,
    cpu: &CpuInfo,
) -> (lines: Vec<String>)
    ensures
        texts(lines@) == metric_text(config@, *memory, *swap, os@, cpu@),
        lines@.len() == metric_text(config@, *memory, *swap, os@, cpu@).len(),
        forall|i: int|
            0 <= i < lines@.len() ==> (#[trigger] lines@[i])@ == metric_text(
                config@,
                *memory,
                *swap,
                os@,
                cpu@,
            )[i],
{
    let mut lines: Vec<String> = Vec::new();
    push_memory(&mut lines, config, memory);
    push_swap(&mut lines, config, swap);
    push_os(&mut lines, config, os);
    push_cpu(&mut lines, config, cpu);
    proof {
        lemma_texts(lines@);
    }
    lines
}

} // verus!
