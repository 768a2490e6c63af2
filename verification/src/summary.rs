//! The whole summary: from a configuration and the gathered host facts to
//! the rows that are printed.

use vstd::prelude::*;
use crate::config::{Config, ConfigView};
use crate::get_info::{
    cpu_info, cpu_shown, get_mem, get_swap, os_info, os_shown, usage_in, CpuInfo, OsFacts,
    OsInfo, Processor, Usage,
};
use crate::layout::{layout, rendered};
use crate::metrics::{format_metrics, metric_text};
use crate::text::{lemma_texts, lines_of, split_lines, texts};
use crate::units::Unit;

verus! {

/// The facts gathered from the host: memory and swap in kilobytes, what the
/// operating system tells of itself, and the logical processors.
#[derive(Clone, Debug, PartialEq, Eq)]
pub struct HostFacts {
    pub memory: Usage,
    pub swap: Usage,
    pub os: OsFacts,
    pub processors: Vec<Processor>,
}

/// The metric lines for a configuration and the gathered host facts: memory
/// and swap expressed in their configured units, untold texts replaced, and
/// only the lines that the configuration shows.
pub open spec fn metrics_of(config: ConfigView, facts: HostFacts) -> Seq<Seq<char>>
    recommends
        config.valid(),
{
    metric_text(
        config,
        usage_in(facts.memory, Unit::of_symbol(config.ram_unit).unwrap()),
        usage_in(facts.swap, Unit::of_symbol(config.swap_unit).unwrap()),
        os_shown(facts.os),
        cpu_shown(facts.processors@),
    )
}

/// The rows of the summary: the configured art beside the metric lines.
pub open spec fn summary_text(config: ConfigView, facts: HostFacts) -> Seq<Seq<char>>
    recommends
        config.valid(),
{
    rendered(lines_of(config.ascii), metrics_of(config, facts))
}

/// Formats the metric lines for the gathered host facts.
pub fn metric_lines(config: &Config, facts: &HostFacts) -> (lines: Vec<String>)
    requires
        config.valid(),
    ensures
        texts(lines@) == metrics_of(config@, *facts),
        lines@.len() == metrics_of(config@, *facts).len(),
        forall|i: int|
            0 <= i < lines@.len() ==> (#[trigger] lines@[i])@ == metrics_of(config@, *facts)[i],
{
    let memory: Usage = get_mem(&facts.memory, config);
    let swap: Usage = get_swap(&facts.swap, config);
    let os: OsInfo = os_info(&facts.os);
    let cpu: CpuInfo = cpu_info(&facts.processors);
    format_metrics(config, &memory, &swap, &os, &cpu)
}

/// Renders the summary: the lines of the configured art on the left, the
/// metric lines in one column on the right, row by row.
pub fn summary(config: &Config, facts: &HostFacts) -> (rows: Vec<String>)
    requires
        config.valid(),
    ensures
        texts(rows@) == summary_text(config@, *facts),
        rows@.len() == summary_text(config@, *facts).len(),
        forall|i: int|
            0 <= i < rows@.len() ==> (#[trigger] rows@[i])@ == summary_text(config@, *facts)[i],
{
    let art: Vec<String> = split_lines(config.ascii.as_str());
    let metrics: Vec<String> = metric_lines(config, facts);
    let rows: Vec<String> = layout(&art, &metrics);
    proof {
        lemma_texts(rows@);
    }
    rows
}

} // verus!
