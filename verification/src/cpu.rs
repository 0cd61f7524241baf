//! Assembly of the CPU snapshot from sampled and inventoried values.
//!
//! Utilisation percentages are carried in hundredths of a percent and the
//! temperature in tenths of a degree Celsius, so every field is plain
//! integer or text data. Each helper classifies or formats one aspect; the
//! builder composes them and guarantees a fully populated snapshot with
//! defined sentinels wherever a source was absent.

use vstd::prelude::*;
use crate::render::{dec_rep, format_uptime, kb_label, uptime_rep};
use crate::sensors::{cpu_temp_spec, get_cpu_temp, SensorReading};
use crate::text::{contains_sub_ci, has_sub_ci};

verus! {

/// The CPU snapshot handed to the caller. Every field is always populated;
/// a source that was unavailable leaves its defined sentinel.
#[derive(Debug)]
pub struct CpuInfo {
    pub brand: String,
    pub frequency: u64,
    pub cores: usize,
    pub logical_cores: usize,
    pub usage_centi: u32,
    pub per_core_usage_centi: Vec<u32>,
    pub temperature_tenths: i32,
    pub temp_available: bool,
    pub vendor: String,
    pub architecture: String,
    pub max_frequency: u64,
    pub cache_l1: String,
    pub cache_l2: String,
    pub cache_l3: String,
    pub socket: String,
    pub process_node: String,
    pub uptime: String,
}

/// What the live utilisation sampler reported: per-core and aggregate usage
/// from the second sample, plus the identity of the first core.
#[derive(Debug)]
pub struct CpuSample {
    pub brand: Option<String>,
    pub frequency: Option<u64>,
    pub logical_cores: usize,
    pub physical_cores: Option<usize>,
    pub usage_centi: u32,
    pub per_core_usage_centi: Vec<u32>,
}

/// The fields of interest of the first processor record of the management
/// inventory, when that query succeeded.
#[derive(Debug)]
pub struct ProcessorFacts {
    pub name: Option<String>,
    pub l2_cache_kb: Option<u32>,
    pub l3_cache_kb: Option<u32>,
    pub socket: Option<String>,
}

/// Vendor text classified from the brand string, case-insensitively.
pub open spec fn cpu_vendor_spec(brand: Seq<char>) -> Seq<char> {
    if has_sub_ci(brand, "intel"@) {
        "Intel"@
    } else if has_sub_ci(brand, "amd"@) {
        "AMD"@
    } else {
        "Other"@
    }
}

/// Architecture tag derived from the build target.
pub open spec fn arch_spec(target_x86_64: bool, target_aarch64: bool) -> Seq<char> {
    if target_x86_64 {
        "x64"@
    } else if target_aarch64 {
        "ARM64"@
    } else {
        "Other"@
    }
}

/// Fabrication-process guess from era markers in the processor name,
/// matched case-insensitively in priority order.
pub open spec fn process_node_spec(name: Seq<char>) -> Seq<char> {
    if has_sub_ci(name, "13th gen"@) || has_sub_ci(name, "-13"@) {
        "Intel 7 (10nm)"@
    } else if has_sub_ci(name, "12th gen"@) || has_sub_ci(name, "-12"@) {
        "Intel 7 (10nm)"@
    } else if has_sub_ci(name, "11th gen"@) || has_sub_ci(name, "-11"@) {
        "10nm SuperFin"@
    } else if has_sub_ci(name, "10th gen"@) || has_sub_ci(name, "-10"@) {
        "14nm"@
    } else if has_sub_ci(name, "7000"@) {
        "5nm (TSMC)"@
    } else if has_sub_ci(name, "5000"@) {
        "7nm (TSMC)"@
    } else if has_sub_ci(name, "3000"@) {
        "7nm (TSMC)"@
    } else if has_sub_ci(name, "2000"@) {
        "12nm (TSMC)"@
    } else if has_sub_ci(name, "1000"@) {
        "14nm (GloFo)"@
    } else {
        "Unknown"@
    }
}

/// A cache size label that treats a missing or zero reading as unknown.
pub open spec fn kb_if_positive_spec(size_kb: Option<u32>) -> Seq<char> {
    match size_kb {
        Some(v) => if v > 0 {
            dec_rep(v as nat) + " KB"@
        } else {
            "Unknown"@
        },
        None => "Unknown"@,
    }
}

/// A cache size label that reports any present reading, zero included.
pub open spec fn kb_if_present_spec(size_kb: Option<u32>) -> Seq<char> {
    match size_kb {
        Some(v) => dec_rep(v as nat) + " KB"@,
        None => "Unknown"@,
    }
}

/// Socket designation, with empty or missing text replaced by the sentinel.
pub open spec fn socket_spec(socket: Option<String>) -> Seq<char> {
    match socket {
        Some(s) => if s@.len() > 0 {
            s@
        } else {
            "Unknown"@
        },
        None => "Unknown"@,
    }
}

/// The processor name the node guess is made from: the inventoried name, or
/// the sentinel when the record carried none.
pub open spec fn facts_name_spec(facts: ProcessorFacts) -> Seq<char> {
    match facts.name {
        Some(n) => n@,
        None => "Unknown"@,
    }
}

/// The resolved brand string: the sampled one, or the sentinel.
pub open spec fn brand_spec(brand: Option<String>) -> Seq<char> {
    match brand {
        Some(b) => b@,
        None => "N/A"@,
    }
}

/// Classifies the brand string as Intel, AMD or other.
pub fn classify_cpu_vendor(brand: &str) -> (r: String)
    ensures
        r@ == cpu_vendor_spec(brand@),
{
    if contains_sub_ci(brand, "intel") {
        String::from_str("Intel")
    } else if contains_sub_ci(brand, "amd") {
        String::from_str("AMD")
    } else {
        String::from_str("Other")
    }
}

/// The architecture tag for the build target the caller reports.
pub fn architecture_label(target_x86_64: bool, target_aarch64: bool) -> (r: String)
    ensures
        r@ == arch_spec(target_x86_64, target_aarch64),
{
    if target_x86_64 {
        String::from_str("x64")
    } else if target_aarch64 {
        String::from_str("ARM64")
    } else {
        String::from_str("Other")
    }
}

/// Guesses the fabrication process from era markers in the processor name.
pub fn guess_process_node(cpu_name: &str) -> (r: String)
    ensures
        r@ == process_node_spec(cpu_name@),
{
    if contains_sub_ci(cpu_name, "13th gen") || contains_sub_ci(cpu_name, "-13") {
        String::from_str("Intel 7 (10nm)")
    } else if contains_sub_ci(cpu_name, "12th gen") || contains_sub_ci(cpu_name, "-12") {
        String::from_str("Intel 7 (10nm)")
    } else if contains_sub_ci(cpu_name, "11th gen") || contains_sub_ci(cpu_name, "-11") {
        String::from_str("10nm SuperFin")
    } else if contains_sub_ci(cpu_name, "10th gen") || contains_sub_ci(cpu_name, "-10") {
        String::from_str("14nm")
    } else if contains_sub_ci(cpu_name, "7000") {
        String::from_str("5nm (TSMC)")
    } else if contains_sub_ci(cpu_name, "5000") {
        String::from_str("7nm (TSMC)")
    } else if contains_sub_ci(cpu_name, "3000") {
        String::from_str("7nm (TSMC)")
    } else if contains_sub_ci(cpu_name, "2000") {
        String::from_str("12nm (TSMC)")
    } else if contains_sub_ci(cpu_name, "1000") {
        String::from_str("14nm (GloFo)")
    } else {
        String::from_str("Unknown")
    }
}

/// A cache size label from an optional kilobyte reading, zero treated as
/// unavailable.
pub fn kb_if_positive(size_kb: Option<u32>) -> (r: String)
    ensures
        r@ == kb_if_positive_spec(size_kb),
{
    match size_kb {
        Some(v) => if v > 0 {
            kb_label(v)
        } else {
            String::from_str("Unknown")
        },
        None => String::from_str("Unknown"),
    }
}

/// A cache size label from an optional kilobyte reading, zero reported as is.
pub fn kb_if_present(size_kb: Option<u32>) -> (r: String)
    ensures
        r@ == kb_if_present_spec(size_kb),
{
    match size_kb {
        Some(v) => kb_label(v),
        None => String::from_str("Unknown"),
    }
}

/// The cache, socket and process-node details drawn from the management
/// inventory.
#[derive(Debug)]
pub struct CpuDetails {
    pub cache_l1: String,
    pub cache_l2: String,
    pub cache_l3: String,
    pub socket: String,
    pub process_node: String,
}

/// Assembles the inventory-sourced details, every one falling back to its
/// sentinel.
///
/// `level3_inventory_kb` is the size read from the level-3 record of the
/// separate cache inventory; the data source labels the first-level cache
/// with it, and that quirk is kept as it is.
pub fn get_cpu_details(facts: Option<ProcessorFacts>, level3_inventory_kb: Option<u32>) -> (d:
    CpuDetails)
    ensures
        d.cache_l1@ == kb_if_present_spec(level3_inventory_kb),
        d.cache_l2@ == match facts {
            Some(f) => kb_if_positive_spec(f.l2_cache_kb),
            None => "Unknown"@,
        },
        d.cache_l3@ == match facts {
            Some(f) => kb_if_positive_spec(f.l3_cache_kb),
            None => "Unknown"@,
        },
        d.socket@ == match facts {
            Some(f) => socket_spec(f.socket),
            None => "Unknown"@,
        },
        d.process_node@ == match facts {
            Some(f) => process_node_spec(facts_name_spec(f)),
            None => "Unknown"@,
        },
{
    let cache_l1 = kb_if_present(level3_inventory_kb);
    match facts {
        Some(f) => {
            let process_node = match f.name {
                Some(n) => guess_process_node(n.as_str()),
                None => guess_process_node("Unknown"),
            };
            let socket = match f.socket {
                Some(s) => if s.as_str().is_empty() {
                    String::from_str("Unknown")
                } else {
                    s
                },
                None => String::from_str("Unknown"),
            };
            CpuDetails {
                cache_l1,
                cache_l2: kb_if_positive(f.l2_cache_kb),
                cache_l3: kb_if_positive(f.l3_cache_kb),
                socket,
                process_node,
            }
        },
        None => CpuDetails {
            cache_l1,
            cache_l2: String::from_str("Unknown"),
            cache_l3: String::from_str("Unknown"),
            socket: String::from_str("Unknown"),
            process_node: String::from_str("Unknown"),
        },
    }
}

/// Builds the CPU snapshot from the sampled, sensed and inventoried values.
pub fn build_cpu_info(
    sample: CpuSample,
    sensors: &Vec<SensorReading>,
    thermal_zones: &Vec<u64>,
    rated_clock: Option<u64>,
    facts: Option<ProcessorFacts>,
    level3_inventory_kb: Option<u32>,
    uptime_secs: u64,
    target_x86_64: bool,
    target_aarch64: bool,
) -> (c: CpuInfo)
    ensures
        c.brand@ == brand_spec(sample.brand),
        c.frequency == match sample.frequency {
            Some(f) => f,
            None => 0u64,
        },
        c.cores == match sample.physical_cores {
            Some(p) => p,
            None => sample.logical_cores,
        },
        c.logical_cores == sample.logical_cores,
        c.usage_centi == sample.usage_centi,
        c.per_core_usage_centi@ == sample.per_core_usage_centi@,
        (c.temperature_tenths, c.temp_available) == cpu_temp_spec(sensors@, thermal_zones@),
        c.vendor@ == cpu_vendor_spec(brand_spec(sample.brand)),
        c.architecture@ == arch_spec(target_x86_64, target_aarch64),
        c.max_frequency == match rated_clock {
            Some(m) => m,
            None => match sample.frequency {
                Some(f) => f,
                None => 0u64,
            },
        },
        c.cache_l1@ == kb_if_present_spec(level3_inventory_kb),
        c.cache_l2@ == match facts {
            Some(f) => kb_if_positive_spec(f.l2_cache_kb),
            None => "Unknown"@,
        },
        c.cache_l3@ == match facts {
            Some(f) => kb_if_positive_spec(f.l3_cache_kb),
            None => "Unknown"@,
        },
        c.socket@ == match facts {
            Some(f) => socket_spec(f.socket),
            None => "Unknown"@,
        },
        c.process_node@ == match facts {
            Some(f) => process_node_spec(facts_name_spec(f)),
            None => "Unknown"@,
        },
        c.uptime@ == uptime_rep(uptime_secs),
{
    let brand: String = match sample.brand {
        Some(b) => b,
        None => String::from_str("N/A"),
    };
    let frequency: u64 = match sample.frequency {
        Some(f) => f,
        None => 0,
    };
    let cores: usize = match sample.physical_cores {
        Some(p) => p,
        None => sample.logical_cores,
    };
    let (temperature_tenths, temp_available) = get_cpu_temp(sensors, thermal_zones);
    let vendor = classify_cpu_vendor(brand.as_str());
    let architecture = architecture_label(target_x86_64, target_aarch64);
    let max_frequency: u64 = match rated_clock {
        Some(m) => m,
        None => frequency,
    };
    let details = get_cpu_details(facts, level3_inventory_kb);
    let uptime = format_uptime(uptime_secs);
    CpuInfo {
        brand,
        frequency,
        cores,
        logical_cores: sample.logical_cores,
        usage_centi: sample.usage_centi,
        per_core_usage_centi: sample.per_core_usage_centi,
        temperature_tenths,
        temp_available,
        vendor,
        architecture,
        max_frequency,
        cache_l1: details.cache_l1,
        cache_l2: details.cache_l2,
        cache_l3: details.cache_l3,
        socket: details.socket,
        process_node: details.process_node,
        uptime,
    }
}

} // verus!
