//! From host facts as they were gathered to the values that are shown.

use vstd::prelude::*;
use crate::config::Config;
use crate::decimal::{decimal, decimal_string};
use crate::units::{conversion, is_unit_symbol, unit_converter, Unit};

verus! {

/// How much of a store (memory or swap) there is, how much of it is free and
/// how much is used, all in one unit.
#[derive(Clone, Copy, Debug, PartialEq, Eq, Structural)]
pub struct Usage {
    pub total: u64,
    pub free: u64,
    pub used: u64,
}

/// What the host tells of its operating system. A fact it does not tell is
/// `None`. The up time is in seconds.
#[derive(Clone, Debug, PartialEq, Eq)]
pub struct OsFacts {
    pub name: Option<String>,
    pub os_version: Option<String>,
    pub kernel_version: Option<String>,
    pub host_name: String,
    pub user_name: String,
    pub up_time: u64,
}

/// The operating system's facts as they are shown.
#[derive(Clone, Debug, PartialEq, Eq)]
pub struct OsInfo {
    pub os_name: String,
    pub os_version: String,
    pub kernel_version: String,
    pub host_name: String,
    pub user_name: String,
    pub up_time: String,
}

/// The operating system's facts as they are shown, each text as its
/// characters.
pub ghost struct OsInfoView {
    pub os_name: Seq<char>,
    pub os_version: Seq<char>,
    pub kernel_version: Seq<char>,
    pub host_name: Seq<char>,
    pub user_name: Seq<char>,
    pub up_time: Seq<char>,
}

impl View for OsInfo {
    type V = OsInfoView;

    open spec fn view(&self) -> OsInfoView {
        OsInfoView {
            os_name: self.os_name@,
            os_version: self.os_version@,
            kernel_version: self.kernel_version@,
            host_name: self.host_name@,
            user_name: self.user_name@,
            up_time: self.up_time@,
        }
    }
}

/// One logical processor: its frequency and the brand of its make.
#[derive(Clone, Debug, PartialEq, Eq)]
pub struct Processor {
    pub frequency: u64,
    pub brand: String,
}

/// The processors' facts as they are shown.
#[derive(Clone, Debug, PartialEq, Eq)]
pub struct CpuInfo {
    pub cores_count: String,
    pub frequency: String,
    pub brand: String,
}

/// The processors' facts as they are shown, each text as its characters.
pub ghost struct CpuInfoView {
    pub cores_count: Seq<char>,
    pub frequency: Seq<char>,
    pub brand: Seq<char>,
}

impl View for CpuInfo {
    type V = CpuInfoView;

    open spec fn view(&self) -> CpuInfoView {
        CpuInfoView {
            cores_count: self.cores_count@,
            frequency: self.frequency@,
            brand: self.brand@,
        }
    }
}

/// A usage given in kilobytes, each quantity expressed in `unit`.
pub open spec fn usage_in(kilobytes: Usage, unit: Unit) -> Usage {
    Usage {
        total: conversion(kilobytes.total, Unit::K, unit),
        free: conversion(kilobytes.free, Unit::K, unit),
        used: conversion(kilobytes.used, Unit::K, unit),
    }
}

/// What stands for a text that the host did not tell.
pub open spec fn absent() -> Seq<char> {
    "NONE"@
}

/// A text the host may have told, or what stands for an untold one.
pub open spec fn told(fact: Option<String>) -> Seq<char> {
    match fact {
        Some(text) => text@,
        None => absent(),
    }
}

/// The sum of the processors' frequencies.
pub open spec fn frequency_sum(processors: Seq<Processor>) -> nat
    decreases processors.len(),
{
    if processors.len() == 0 {
        0
    } else {
        frequency_sum(processors.drop_last()) + processors.last().frequency as nat
    }
}

/// The mean of the processors' frequencies, rounded down; 0 without
/// processors.
pub open spec fn mean_frequency(processors: Seq<Processor>) -> nat {
    if processors.len() == 0 {
        0
    } else {
        frequency_sum(processors) / processors.len()
    }
}

/// The brand of the first processor, or what stands for an untold text
/// without processors.
pub open spec fn first_brand(processors: Seq<Processor>) -> Seq<char> {
    if processors.len() == 0 {
        absent()
    } else {
        processors[0].brand@
    }
}

/// The operating system's facts as they are shown: each untold text is
/// `NONE`, the up time is written in decimal.
pub open spec fn os_shown(facts: OsFacts) -> OsInfoView {
    OsInfoView {
        os_name: told(facts.name),
        os_version: told(facts.os_version),
        kernel_version: told(facts.kernel_version),
        host_name: facts.host_name@,
        user_name: facts.user_name@,
        up_time: decimal(facts.up_time as nat),
    }
}

/// The processors' facts as they are shown: their number and the mean of
/// their frequencies in decimal, and the brand of the first.
pub open spec fn cpu_shown(processors: Seq<Processor>) -> CpuInfoView {
    CpuInfoView {
        cores_count: decimal(processors.len()),
        frequency: decimal(mean_frequency(processors)),
        brand: first_brand(processors),
    }
}

/// Expresses `kilobytes` in the unit with symbol `unit`.
fn usage_converted(kilobytes: &Usage, unit: char) -> (shown: Usage)
    requires
        is_unit_symbol(unit),
    ensures
        shown == usage_in(*kilobytes, Unit::of_symbol(unit).unwrap()),
{
    Usage {
        total: unit_converter('K', unit, kilobytes.total),
        free: unit_converter('K', unit, kilobytes.free),
        used: unit_converter('K', unit, kilobytes.used),
    }
}

/// The memory, gathered in kilobytes, in the configured memory unit.
pub fn get_mem(memory: &Usage, config: &Config) -> (shown: Usage)
    requires
        is_unit_symbol(config.ram_unit),
    ensures
        shown == usage_in(*memory, Unit::of_symbol(config.ram_unit).unwrap()),
{
    usage_converted(memory, config.ram_unit)
}

/// The swap, gathered in kilobytes, in the configured swap unit.
pub fn get_swap(swap: &Usage, config: &Config) -> (shown: Usage)
    requires
        is_unit_symbol(config.swap_unit),
    ensures
        shown == usage_in(*swap, Unit::of_symbol(config.swap_unit).unwrap()),
{
    usage_converted(swap, config.swap_unit)
}

/// A text the host may have told, or `NONE`.
fn told_text(fact: &Option<String>) -> (text: String)
    ensures
        text@ == told(*fact),
{
    match fact {
        Some(text) => text.clone(),
        None => String::from_str("NONE"),
    }
}

/// The operating system's facts as they are shown: each untold text is
/// `NONE`, the up time is written in decimal.
pub fn os_info(facts: &OsFacts) -> (info: OsInfo)
    ensures
        info@ == os_shown(*facts),
{
    OsInfo {
        os_name: told_text(&facts.name),
        os_version: told_text(&facts.os_version),
        kernel_version: told_text(&facts.kernel_version),
        host_name: facts.host_name.clone(),
        user_name: facts.user_name.clone(),
        up_time: decimal_string(facts.up_time),
    }
}

/// The processors' facts as they are shown: how many there are, the mean of
/// their frequencies rounded down, and the brand of the first. Without
/// processors these are 0, 0 and `NONE`.
pub fn cpu_info(processors: &Vec<Processor>) -> (info: CpuInfo)
    ensures
        info@ == cpu_shown(processors@),
{
    let count: usize = processors.len();
    let mut sum: u128 = 0;
    let mut i: usize = 0;
    while i < count
        invariant
            i <= count,
            count == processors@.len(),
            sum == frequency_sum(processors@.take(i as int)),
            sum <= i * u64::MAX,
        decreases count - i,
    {
        proof {
            let seen: Seq<Processor> = processors@.take(i + 1);
            assert(seen.drop_last() =~= processors@.take(i as int));
            assert((i + 1) * u64::MAX <= usize::MAX * u64::MAX) by (nonlinear_arith)
                requires
                    i + 1 <= usize::MAX,
            ;
        }
        sum = sum + processors[i].frequency as u128;
        i = i + 1;
    }
    proof {
        assert(processors@.take(count as int) =~= processors@);
    }
    let mean: u64 = if count == 0 {
        0
    } else {
        let quotient: u128 = sum / (count as u128);
        assert(quotient <= u64::MAX) by (nonlinear_arith)
            requires
                quotient == sum / (count as u128),
                sum <= count * u64::MAX,
                count > 0,
        ;
        quotient as u64
    };
    let brand: String = if count == 0 {
        String::from_str("NONE")
    } else {
        processors[0].brand.clone()
    };
    CpuInfo {
        cores_count: decimal_string(count as u64),
        frequency: decimal_string(mean),
        brand,
    }
}

} // verus!
