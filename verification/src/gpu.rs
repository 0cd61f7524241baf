//! Assembly of the GPU snapshot: adapter selection, vendor and capability
//! classification, and best-effort enrichment.
//!
//! The caller hands in what it read from the display-adapter registry hive,
//! the sensor list and the display-controller inventory; everything after
//! those reads — which adapter counts, how its name classifies, how memory
//! is decoded and accounted — is decided and proved here.

use vstd::prelude::*;
use vstd::string::*;
use crate::sensors::{get_gpu_temp, gpu_temp_spec, SensorReading};
use crate::text::{
    contains_in_lower,
    contains_sub,
    contains_sub_ci,
    has_sub,
    has_sub_ci,
    lower,
    lower_two_token_prefix,
    two_token_prefix,
};

verus! {

/// The GPU snapshot handed to the caller. Every field is always populated;
/// power, utilisation, fan speed and the clock and unit counts are explicit
/// unsupported-measurement sentinels, fixed at zero.
#[derive(Debug)]
pub struct GpuInfo {
    pub name: String,
    pub driver_version: String,
    pub memory_total: u64,
    pub memory_used: u64,
    pub memory_free: u64,
    pub temperature_tenths: i32,
    pub temp_available: bool,
    pub power_usage: u32,
    pub utilization: u32,
    pub fan_speed: u32,
    pub gpu_type: String,
    pub vendor: String,
    pub architecture: String,
    pub device_id: String,
    pub pci_slot: String,
    pub memory_type: String,
    pub memory_bus_width: u32,
    pub base_clock: u32,
    pub boost_clock: u32,
    pub memory_clock: u32,
    pub shader_units: u32,
    pub tmu_count: u32,
    pub rop_count: u32,
    pub directx_version: String,
    pub opengl_version: String,
    pub vulkan_support: bool,
}

/// The values read from one indexed adapter entry of the display-adapter
/// registry hive; a `None` field is a read that failed.
#[derive(Debug)]
pub struct AdapterValues {
    pub description: Option<String>,
    pub driver_version: Option<String>,
    pub device_id: Option<String>,
    pub memory_size_32: Option<u32>,
    pub memory_size_64: Option<u64>,
}

/// How many indexed adapter entries are consulted, at most.
pub const ADAPTER_SCAN_LIMIT: usize = 10;

/// An adapter entry is accepted when it could be opened and its description
/// is present, non-empty and not the basic-display placeholder.
pub open spec fn entry_ok(e: Option<AdapterValues>) -> bool {
    match e {
        Some(a) => match a.description {
            Some(d) => d@.len() > 0 && !has_sub(d@, "Microsoft Basic"@),
            None => false,
        },
        None => false,
    }
}

/// The first acceptable adapter entry, in index order.
pub open spec fn pick_adapter_rec(entries: Seq<Option<AdapterValues>>) -> Option<AdapterValues>
    decreases entries.len(),
{
    if entries.len() <= 0 {
        None
    } else if entry_ok(entries[0]) {
        entries[0]
    } else {
        pick_adapter_rec(entries.drop_first())
    }
}

/// The first acceptable adapter among the first `ADAPTER_SCAN_LIMIT`
/// entries; later entries are never consulted.
pub open spec fn pick_adapter_spec(entries: Seq<Option<AdapterValues>>) -> Option<AdapterValues> {
    pick_adapter_rec(
        entries.take(
            if entries.len() <= ADAPTER_SCAN_LIMIT as int {
                entries.len() as int
            } else {
                ADAPTER_SCAN_LIMIT as int
            },
        ),
    )
}

/// The identity drawn from the accepted adapter or synthesised as a
/// fallback.
#[derive(Debug)]
pub struct AdapterChoice {
    pub name: String,
    pub driver_version: String,
    pub memory_total: u64,
    pub device_id: String,
}

/// Ghost image of an `AdapterChoice`.
pub ghost struct ChoiceSpec {
    pub name: Seq<char>,
    pub driver_version: Seq<char>,
    pub memory_total: u64,
    pub device_id: Seq<char>,
}

impl View for AdapterChoice {
    type V = ChoiceSpec;

    open spec fn view(&self) -> ChoiceSpec {
        ChoiceSpec {
            name: self.name@,
            driver_version: self.driver_version@,
            memory_total: self.memory_total,
            device_id: self.device_id@,
        }
    }
}

/// Decoded adapter memory: the 32-bit encoding wins, the 64-bit one is
/// consulted only when the 32-bit read failed, and zero stands for no
/// reading at all.
pub open spec fn adapter_memory_spec(a: AdapterValues) -> u64 {
    match a.memory_size_32 {
        Some(m) => m as u64,
        None => match a.memory_size_64 {
            Some(m) => m,
            None => 0u64,
        },
    }
}

/// The identity taken from an accepted adapter, with sentinels for the
/// reads that failed.
pub open spec fn chosen_spec(a: AdapterValues) -> ChoiceSpec {
    ChoiceSpec {
        name: match a.description {
            Some(d) => d@,
            None => "Unknown GPU"@,
        },
        driver_version: match a.driver_version {
            Some(v) => v@,
            None => "Unknown"@,
        },
        memory_total: adapter_memory_spec(a),
        device_id: match a.device_id {
            Some(d) => d@,
            None => "Unknown"@,
        },
    }
}

/// The synthesised integrated-graphics identity: named after the CPU brand
/// (matched case-sensitively), marked as a built-in driver, and attributed
/// an eighth of total system memory.
pub open spec fn fallback_spec(cpu_brand: Option<String>, total_memory: u64) -> ChoiceSpec {
    ChoiceSpec {
        name: match cpu_brand {
            Some(b) => if has_sub(b@, "Intel"@) {
                "Intel Integrated Graphics"@
            } else if has_sub(b@, "AMD"@) {
                "AMD Integrated Graphics"@
            } else {
                "Integrated Graphics"@
            },
            None => "Integrated Graphics"@,
        },
        driver_version: "Built-in"@,
        memory_total: total_memory / 8,
        device_id: "Unknown"@,
    }
}

/// The adapter identity the snapshot is built from: the first acceptable
/// registry entry, or the integrated-graphics fallback.
pub open spec fn base_spec(
    entries: Seq<Option<AdapterValues>>,
    cpu_brand: Option<String>,
    total_memory: u64,
) -> ChoiceSpec {
    match pick_adapter_spec(entries) {
        Some(a) => chosen_spec(a),
        None => fallback_spec(cpu_brand, total_memory),
    }
}

/// Scans the first `ADAPTER_SCAN_LIMIT` entries for an acceptable adapter
/// and extracts its identity.
pub fn select_adapter(entries: &Vec<Option<AdapterValues>>) -> (r: Option<AdapterChoice>)
    ensures
        match pick_adapter_spec(entries@) {
            Some(a) => r is Some && r->0@ == chosen_spec(a),
            None => r is None,
        },
{
    let limit: usize = if entries.len() <= ADAPTER_SCAN_LIMIT {
        entries.len()
    } else {
        ADAPTER_SCAN_LIMIT
    };
    let ghost trunc = entries@.take(limit as int);
    proof {
        assert(trunc.skip(0) =~= trunc);
    }
    let mut i: usize = 0;
    while i < limit
        invariant
            limit <= entries@.len(),
            limit as int == (if entries@.len() <= ADAPTER_SCAN_LIMIT as int {
                entries@.len() as int
            } else {
                ADAPTER_SCAN_LIMIT as int
            }),
            i <= limit,
            trunc == entries@.take(limit as int),
            trunc.len() == limit,
            pick_adapter_rec(trunc) == pick_adapter_rec(trunc.skip(i as int)),
        decreases limit - i,
    {
        proof {
            assert(trunc.skip(i as int)[0] == trunc[i as int]);
            assert(trunc[i as int] == entries@[i as int]);
        }
        let accepted: bool = match &entries[i] {
            Some(a) => match &a.description {
                Some(d) => !d.as_str().is_empty() && !contains_sub(d.as_str(), "Microsoft Basic"),
                None => false,
            },
            None => false,
        };
        if accepted {
            proof {
                assert(accepted == entry_ok(entries@[i as int]));
                assert(pick_adapter_rec(trunc.skip(i as int)) == trunc.skip(i as int)[0]);
                assert(pick_adapter_rec(trunc) == entries@[i as int]);
                assert(pick_adapter_spec(entries@) == pick_adapter_rec(
                    entries@.take(limit as int),
                ));
                assert(pick_adapter_spec(entries@) == entries@[i as int]);
            }
            let a = match &entries[i] {
                Some(a) => a,
                None => unreached(),
            };
            let name: String = match &a.description {
                Some(d) => d.clone(),
                None => String::from_str("Unknown GPU"),
            };
            let driver_version: String = match &a.driver_version {
                Some(v) => v.clone(),
                None => String::from_str("Unknown"),
            };
            let device_id: String = match &a.device_id {
                Some(d) => d.clone(),
                None => String::from_str("Unknown"),
            };
            let memory_total: u64 = match &a.memory_size_32 {
                Some(m) => *m as u64,
                None => match &a.memory_size_64 {
                    Some(m) => *m,
                    None => 0,
                },
            };
            return Some(AdapterChoice { name, driver_version, memory_total, device_id });
        }
        proof {
            assert(trunc.skip(i as int).drop_first() =~= trunc.skip(i as int + 1));
        }
        i += 1;
    }
    proof {
        assert(trunc.skip(i as int).len() == 0);
    }
    None
}

/// Synthesises the integrated-graphics identity used when no adapter was
/// accepted.
pub fn integrated_fallback(cpu_brand: &Option<String>, total_memory: u64) -> (r: AdapterChoice)
    ensures
        r@ == fallback_spec(*cpu_brand, total_memory),
{
    let name: String = match cpu_brand {
        Some(b) => {
            if contains_sub(b.as_str(), "Intel") {
                String::from_str("Intel Integrated Graphics")
            } else if contains_sub(b.as_str(), "AMD") {
                String::from_str("AMD Integrated Graphics")
            } else {
                String::from_str("Integrated Graphics")
            }
        },
        None => String::from_str("Integrated Graphics"),
    };
    AdapterChoice {
        name,
        driver_version: String::from_str("Built-in"),
        memory_total: total_memory / 8,
        device_id: String::from_str("Unknown"),
    }
}

/// Type classification of a GPU name: an ordered, case-insensitive cascade;
/// an AMD name counts as integrated only with an explicit integrated or APU
/// marker.
pub open spec fn gpu_type_spec(n: Seq<char>) -> Seq<char> {
    if has_sub_ci(n, "intel"@) {
        "Integrated (Intel)"@
    } else if has_sub_ci(n, "amd"@) || has_sub_ci(n, "radeon"@) {
        if has_sub_ci(n, "integrated"@) || has_sub_ci(n, "apu"@) {
            "Integrated (AMD)"@
        } else {
            "Discrete (AMD)"@
        }
    } else if has_sub_ci(n, "nvidia"@) || has_sub_ci(n, "geforce"@) {
        "Discrete (NVIDIA)"@
    } else if has_sub_ci(n, "integrated"@) || has_sub_ci(n, "basic"@) {
        "Integrated Graphics"@
    } else {
        "Unknown Type"@
    }
}

/// Classifies a GPU name as integrated or discrete, by vendor.
pub fn get_gpu_type(name: &str) -> (r: String)
    ensures
        r@ == gpu_type_spec(name@),
{
    if contains_sub_ci(name, "intel") {
        String::from_str("Integrated (Intel)")
    } else if contains_sub_ci(name, "amd") || contains_sub_ci(name, "radeon") {
        if contains_sub_ci(name, "integrated") || contains_sub_ci(name, "apu") {
            String::from_str("Integrated (AMD)")
        } else {
            String::from_str("Discrete (AMD)")
        }
    } else if contains_sub_ci(name, "nvidia") || contains_sub_ci(name, "geforce") {
        String::from_str("Discrete (NVIDIA)")
    } else if contains_sub_ci(name, "integrated") || contains_sub_ci(name, "basic") {
        String::from_str("Integrated Graphics")
    } else {
        String::from_str("Unknown Type")
    }
}

/// The static capability record looked up from a GPU name.
#[derive(Debug)]
pub struct GpuCaps {
    pub vendor: String,
    pub architecture: String,
    pub memory_type: String,
    pub memory_bus_width: u32,
    pub directx_version: String,
    pub opengl_version: String,
    pub vulkan_support: bool,
}

/// Ghost image of a `GpuCaps`.
pub ghost struct GpuCapsSpec {
    pub vendor: Seq<char>,
    pub architecture: Seq<char>,
    pub memory_type: Seq<char>,
    pub memory_bus_width: u32,
    pub directx_version: Seq<char>,
    pub opengl_version: Seq<char>,
    pub vulkan_support: bool,
}

impl View for GpuCaps {
    type V = GpuCapsSpec;

    open spec fn view(&self) -> GpuCapsSpec {
        GpuCapsSpec {
            vendor: self.vendor@,
            architecture: self.architecture@,
            memory_type: self.memory_type@,
            memory_bus_width: self.memory_bus_width,
            directx_version: self.directx_version@,
            opengl_version: self.opengl_version@,
            vulkan_support: self.vulkan_support,
        }
    }
}

/// Shorthand constructor for capability records.
pub open spec fn caps_rec(
    vendor: Seq<char>,
    architecture: Seq<char>,
    memory_type: Seq<char>,
    memory_bus_width: u32,
    directx_version: Seq<char>,
    opengl_version: Seq<char>,
    vulkan_support: bool,
) -> GpuCapsSpec {
    GpuCapsSpec {
        vendor,
        architecture,
        memory_type,
        memory_bus_width,
        directx_version,
        opengl_version,
        vulkan_support,
    }
}

/// A name is recognised as NVIDIA by any of its brand markers.
pub open spec fn is_nvidia_name(n: Seq<char>) -> bool {
    has_sub_ci(n, "nvidia"@) || has_sub_ci(n, "geforce"@) || has_sub_ci(n, "quadro"@)
        || has_sub_ci(n, "rtx"@) || has_sub_ci(n, "gtx"@)
}

/// A name is recognised as AMD by any of its brand markers.
pub open spec fn is_amd_name(n: Seq<char>) -> bool {
    has_sub_ci(n, "amd"@) || has_sub_ci(n, "radeon"@) || has_sub_ci(n, "rx "@)
}

/// A name is recognised as Intel by its brand marker.
pub open spec fn is_intel_name(n: Seq<char>) -> bool {
    has_sub_ci(n, "intel"@)
}

/// NVIDIA capabilities: generation blocks in priority order; an unmatched
/// model keeps the vendor-level entries and the unknown-architecture
/// sentinels.
pub open spec fn nvidia_caps_spec(n: Seq<char>) -> GpuCapsSpec {
    if has_sub_ci(n, "rtx 40"@) || has_sub_ci(n, "409"@) || has_sub_ci(n, "408"@) || has_sub_ci(
        n,
        "407"@,
    ) || has_sub_ci(n, "406"@) {
        caps_rec(
            "NVIDIA"@,
            "Ada Lovelace"@,
            "GDDR6X"@,
            if has_sub_ci(n, "4090"@) {
                384u32
            } else if has_sub_ci(n, "4080"@) {
                256u32
            } else {
                192u32
            },
            "DirectX 12"@,
            "OpenGL 4.6"@,
            true,
        )
    } else if has_sub_ci(n, "rtx 30"@) || has_sub_ci(n, "309"@) || has_sub_ci(n, "308"@)
        || has_sub_ci(n, "307"@) || has_sub_ci(n, "306"@) {
        caps_rec(
            "NVIDIA"@,
            "Ampere"@,
            if has_sub_ci(n, "3090"@) || has_sub_ci(n, "3080"@) {
                "GDDR6X"@
            } else {
                "GDDR6"@
            },
            if has_sub_ci(n, "3090"@) {
                384u32
            } else if has_sub_ci(n, "3080"@) {
                320u32
            } else {
                256u32
            },
            "DirectX 12"@,
            "OpenGL 4.6"@,
            true,
        )
    } else if has_sub_ci(n, "rtx 20"@) || has_sub_ci(n, "208"@) || has_sub_ci(n, "207"@)
        || has_sub_ci(n, "206"@) {
        caps_rec(
            "NVIDIA"@,
            "Turing"@,
            "GDDR6"@,
            if has_sub_ci(n, "2080 ti"@) {
                352u32
            } else if has_sub_ci(n, "2080"@) {
                256u32
            } else {
                192u32
            },
            "DirectX 12"@,
            "OpenGL 4.6"@,
            true,
        )
    } else if has_sub_ci(n, "gtx 16"@) || has_sub_ci(n, "166"@) || has_sub_ci(n, "165"@) {
        caps_rec("NVIDIA"@, "Turing"@, "GDDR6"@, 192u32, "DirectX 12"@, "OpenGL 4.6"@, true)
    } else if has_sub_ci(n, "gtx 10"@) || has_sub_ci(n, "108"@) || has_sub_ci(n, "107"@)
        || has_sub_ci(n, "106"@) {
        caps_rec(
            "NVIDIA"@,
            "Pascal"@,
            "GDDR5X"@,
            if has_sub_ci(n, "1080 ti"@) {
                352u32
            } else if has_sub_ci(n, "1080"@) {
                256u32
            } else {
                192u32
            },
            "DirectX 12"@,
            "OpenGL 4.6"@,
            true,
        )
    } else {
        caps_rec("NVIDIA"@, "Unknown"@, "Unknown"@, 0u32, "DirectX 12"@, "OpenGL 4.6"@, true)
    }
}

/// AMD capabilities: generation blocks in priority order.
pub open spec fn amd_caps_spec(n: Seq<char>) -> GpuCapsSpec {
    if has_sub_ci(n, "rx 7"@) || has_sub_ci(n, "790"@) || has_sub_ci(n, "780"@) || has_sub_ci(
        n,
        "770"@,
    ) || has_sub_ci(n, "760"@) {
        caps_rec(
            "AMD"@,
            "RDNA 3"@,
            "GDDR6"@,
            if has_sub_ci(n, "7900"@) {
                384u32
            } else if has_sub_ci(n, "7800"@) {
                256u32
            } else {
                128u32
            },
            "DirectX 12"@,
            "OpenGL 4.6"@,
            true,
        )
    } else if has_sub_ci(n, "rx 6"@) || has_sub_ci(n, "690"@) || has_sub_ci(n, "680"@)
        || has_sub_ci(n, "670"@) || has_sub_ci(n, "660"@) {
        caps_rec(
            "AMD"@,
            "RDNA 2"@,
            "GDDR6"@,
            if has_sub_ci(n, "6900"@) || has_sub_ci(n, "6800"@) {
                256u32
            } else {
                128u32
            },
            "DirectX 12"@,
            "OpenGL 4.6"@,
            true,
        )
    } else if has_sub_ci(n, "rx 5"@) || has_sub_ci(n, "570"@) || has_sub_ci(n, "560"@)
        || has_sub_ci(n, "550"@) {
        caps_rec(
            "AMD"@,
            "RDNA"@,
            "GDDR6"@,
            if has_sub_ci(n, "5700"@) {
                256u32
            } else {
                128u32
            },
            "DirectX 12"@,
            "OpenGL 4.6"@,
            true,
        )
    } else if has_sub_ci(n, "rx 580"@) || has_sub_ci(n, "rx 570"@) || has_sub_ci(n, "rx 560"@) {
        caps_rec(
            "AMD"@,
            "Polaris"@,
            "GDDR5"@,
            if has_sub_ci(n, "580"@) {
                256u32
            } else {
                128u32
            },
            "DirectX 12"@,
            "OpenGL 4.6"@,
            true,
        )
    } else {
        caps_rec("AMD"@, "Unknown"@, "Unknown"@, 0u32, "DirectX 12"@, "OpenGL 4.6"@, true)
    }
}

/// Intel capabilities: generation blocks in priority order.
pub open spec fn intel_caps_spec(n: Seq<char>) -> GpuCapsSpec {
    if has_sub_ci(n, "arc"@) {
        caps_rec(
            "Intel"@,
            "Xe-HPG (Alchemist)"@,
            "GDDR6"@,
            if has_sub_ci(n, "a770"@) {
                256u32
            } else if has_sub_ci(n, "a750"@) {
                256u32
            } else {
                128u32
            },
            "DirectX 12"@,
            "OpenGL 4.5"@,
            true,
        )
    } else if has_sub_ci(n, "iris xe"@) || has_sub_ci(n, "xe graphics"@) {
        caps_rec("Intel"@, "Xe-LP"@, "System RAM"@, 128u32, "DirectX 12"@, "OpenGL 4.5"@, true)
    } else if has_sub_ci(n, "uhd"@) || has_sub_ci(n, "hd graphics"@) {
        caps_rec(
            "Intel"@,
            "Gen 9.5/Gen 11"@,
            "System RAM"@,
            64u32,
            "DirectX 12"@,
            "OpenGL 4.5"@,
            true,
        )
    } else {
        caps_rec("Intel"@, "Unknown"@, "Unknown"@, 0u32, "DirectX 12"@, "OpenGL 4.5"@, true)
    }
}

/// Capability lookup: vendor blocks in NVIDIA, AMD, Intel order; an
/// unrecognised vendor keeps every sentinel.
pub open spec fn gpu_caps_spec(n: Seq<char>) -> GpuCapsSpec {
    if is_nvidia_name(n) {
        nvidia_caps_spec(n)
    } else if is_amd_name(n) {
        amd_caps_spec(n)
    } else if is_intel_name(n) {
        intel_caps_spec(n)
    } else {
        caps_rec("Unknown"@, "Unknown"@, "Unknown"@, 0u32, "Unknown"@, "Unknown"@, false)
    }
}

/// Builds a capability record from its parts.
fn caps_make(
    vendor: &str,
    architecture: &str,
    memory_type: &str,
    memory_bus_width: u32,
    directx_version: &str,
    opengl_version: &str,
    vulkan_support: bool,
) -> (c: GpuCaps)
    ensures
        c@ == caps_rec(
            vendor@,
            architecture@,
            memory_type@,
            memory_bus_width,
            directx_version@,
            opengl_version@,
            vulkan_support,
        ),
{
    GpuCaps {
        vendor: String::from_str(vendor),
        architecture: String::from_str(architecture),
        memory_type: String::from_str(memory_type),
        memory_bus_width,
        directx_version: String::from_str(directx_version),
        opengl_version: String::from_str(opengl_version),
        vulkan_support,
    }
}

/// NVIDIA block of the capability lookup.
fn nvidia_caps(name: &str) -> (c: GpuCaps)
    ensures
        c@ == nvidia_caps_spec(name@),
{
    if contains_sub_ci(name, "rtx 40") || contains_sub_ci(name, "409") || contains_sub_ci(
        name,
        "408",
    ) || contains_sub_ci(name, "407") || contains_sub_ci(name, "406") {
        let width: u32 = if contains_sub_ci(name, "4090") {
            384
        } else if contains_sub_ci(name, "4080") {
            256
        } else {
            192
        };
        caps_make("NVIDIA", "Ada Lovelace", "GDDR6X", width, "DirectX 12", "OpenGL 4.6", true)
    } else if contains_sub_ci(name, "rtx 30") || contains_sub_ci(name, "309") || contains_sub_ci(
        name,
        "308",
    ) || contains_sub_ci(name, "307") || contains_sub_ci(name, "306") {
        let x: bool = contains_sub_ci(name, "3090");
        let mem: &str = if x || contains_sub_ci(name, "3080") {
            "GDDR6X"
        } else {
            "GDDR6"
        };
        let width: u32 = if contains_sub_ci(name, "3090") {
            384
        } else if contains_sub_ci(name, "3080") {
            320
        } else {
            256
        };
        caps_make("NVIDIA", "Ampere", mem, width, "DirectX 12", "OpenGL 4.6", true)
    } else if contains_sub_ci(name, "rtx 20") || contains_sub_ci(name, "208") || contains_sub_ci(
        name,
        "207",
    ) || contains_sub_ci(name, "206") {
        let width: u32 = if contains_sub_ci(name, "2080 ti") {
            352
        } else if contains_sub_ci(name, "2080") {
            256
        } else {
            192
        };
        caps_make("NVIDIA", "Turing", "GDDR6", width, "DirectX 12", "OpenGL 4.6", true)
    } else if contains_sub_ci(name, "gtx 16") || contains_sub_ci(name, "166") || contains_sub_ci(
        name,
        "165",
    ) {
        caps_make("NVIDIA", "Turing", "GDDR6", 192, "DirectX 12", "OpenGL 4.6", true)
    } else if contains_sub_ci(name, "gtx 10") || contains_sub_ci(name, "108") || contains_sub_ci(
        name,
        "107",
    ) || contains_sub_ci(name, "106") {
        let width: u32 = if contains_sub_ci(name, "1080 ti") {
            352
        } else if contains_sub_ci(name, "1080") {
            256
        } else {
            192
        };
        caps_make("NVIDIA", "Pascal", "GDDR5X", width, "DirectX 12", "OpenGL 4.6", true)
    } else {
        caps_make("NVIDIA", "Unknown", "Unknown", 0, "DirectX 12", "OpenGL 4.6", true)
    }
}

/// AMD block of the capability lookup.
fn amd_caps(name: &str) -> (c: GpuCaps)
    ensures
        c@ == amd_caps_spec(name@),
{
    if contains_sub_ci(name, "rx 7") || contains_sub_ci(name, "790") || contains_sub_ci(
        name,
        "780",
    ) || contains_sub_ci(name, "770") || contains_sub_ci(name, "760") {
        let width: u32 = if contains_sub_ci(name, "7900") {
            384
        } else if contains_sub_ci(name, "7800") {
            256
        } else {
            128
        };
        caps_make("AMD", "RDNA 3", "GDDR6", width, "DirectX 12", "OpenGL 4.6", true)
    } else if contains_sub_ci(name, "rx 6") || contains_sub_ci(name, "690") || contains_sub_ci(
        name,
        "680",
    ) || contains_sub_ci(name, "670") || contains_sub_ci(name, "660") {
        let width: u32 = if contains_sub_ci(name, "6900") || contains_sub_ci(name, "6800") {
            256
        } else {
            128
        };
        caps_make("AMD", "RDNA 2", "GDDR6", width, "DirectX 12", "OpenGL 4.6", true)
    } else if contains_sub_ci(name, "rx 5") || contains_sub_ci(name, "570") || contains_sub_ci(
        name,
        "560",
    ) || contains_sub_ci(name, "550") {
        let width: u32 = if contains_sub_ci(name, "5700") {
            256
        } else {
            128
        };
        caps_make("AMD", "RDNA", "GDDR6", width, "DirectX 12", "OpenGL 4.6", true)
    } else if contains_sub_ci(name, "rx 580") || contains_sub_ci(name, "rx 570") || contains_sub_ci(
        name,
        "rx 560",
    ) {
        let width: u32 = if contains_sub_ci(name, "580") {
            256
        } else {
            128
        };
        caps_make("AMD", "Polaris", "GDDR5", width, "DirectX 12", "OpenGL 4.6", true)
    } else {
        caps_make("AMD", "Unknown", "Unknown", 0, "DirectX 12", "OpenGL 4.6", true)
    }
}

/// Intel block of the capability lookup.
fn intel_caps(name: &str) -> (c: GpuCaps)
    ensures
        c@ == intel_caps_spec(name@),
{
    if contains_sub_ci(name, "arc") {
        let width: u32 = if contains_sub_ci(name, "a770") {
            256
        } else if contains_sub_ci(name, "a750") {
            256
        } else {
            128
        };
        caps_make("Intel", "Xe-HPG (Alchemist)", "GDDR6", width, "DirectX 12", "OpenGL 4.5", true)
    } else if contains_sub_ci(name, "iris xe") || contains_sub_ci(name, "xe graphics") {
        caps_make("Intel", "Xe-LP", "System RAM", 128, "DirectX 12", "OpenGL 4.5", true)
    } else if contains_sub_ci(name, "uhd") || contains_sub_ci(name, "hd graphics") {
        caps_make("Intel", "Gen 9.5/Gen 11", "System RAM", 64, "DirectX 12", "OpenGL 4.5", true)
    } else {
        caps_make("Intel", "Unknown", "Unknown", 0, "DirectX 12", "OpenGL 4.5", true)
    }
}

/// Looks the GPU name up in the static capability table.
pub fn get_gpu_caps(name: &str) -> (c: GpuCaps)
    ensures
        c@ == gpu_caps_spec(name@),
{
    if contains_sub_ci(name, "nvidia") || contains_sub_ci(name, "geforce") || contains_sub_ci(
        name,
        "quadro",
    ) || contains_sub_ci(name, "rtx") || contains_sub_ci(name, "gtx") {
        nvidia_caps(name)
    } else if contains_sub_ci(name, "amd") || contains_sub_ci(name, "radeon") || contains_sub_ci(
        name,
        "rx ",
    ) {
        amd_caps(name)
    } else if contains_sub_ci(name, "intel") {
        intel_caps(name)
    } else {
        caps_make("Unknown", "Unknown", "Unknown", 0, "Unknown", "Unknown", false)
    }
}

/// One record of the display-controller inventory; a `None` field was not
/// present on the record.
#[derive(Debug)]
pub struct ControllerRow {
    pub name: Option<String>,
    pub pnp_device_id: Option<String>,
    pub video_mode: Option<String>,
}

/// A controller record matches when its name, case-folded, contains the
/// lookup key.
pub open spec fn row_matches(row: ControllerRow, key: Seq<char>) -> bool {
    match row.name {
        Some(n) => has_sub(lower(n@), key),
        None => false,
    }
}

/// The first matching controller record, in inventory order.
pub open spec fn find_controller_rec(rows: Seq<ControllerRow>, key: Seq<char>) -> Option<
    ControllerRow,
>
    decreases rows.len(),
{
    if rows.len() <= 0 {
        None
    } else if row_matches(rows[0], key) {
        Some(rows[0])
    } else {
        find_controller_rec(rows.drop_first(), key)
    }
}

/// The device id after enrichment: the matching record's plug-and-play id
/// when one was found and carried one, else the id already in hand.
pub open spec fn enriched_device_spec(
    base_id: Seq<char>,
    name: Seq<char>,
    rows: Seq<ControllerRow>,
) -> Seq<char> {
    match find_controller_rec(rows, two_token_prefix(lower(name))) {
        Some(row) => match row.pnp_device_id {
            Some(p) => p@,
            None => base_id,
        },
        None => base_id,
    }
}

/// The DirectX text after enrichment: the matching record's non-empty video
/// mode appended in parentheses, else the text already in hand.
pub open spec fn enriched_dx_spec(
    base_dx: Seq<char>,
    name: Seq<char>,
    rows: Seq<ControllerRow>,
) -> Seq<char> {
    match find_controller_rec(rows, two_token_prefix(lower(name))) {
        Some(row) => match row.video_mode {
            Some(m) => if m@.len() > 0 {
                "DirectX 12 ("@ + m@ + ")"@
            } else {
                base_dx
            },
            None => base_dx,
        },
        None => base_dx,
    }
}

/// Overwrites the device id and DirectX text from the first controller
/// record whose name shares the snapshot name's two-token prefix.
pub fn enrich_from_controllers(
    device_id: &mut String,
    directx_version: &mut String,
    name: &str,
    rows: &Vec<ControllerRow>,
)
    ensures
        final(device_id)@ == enriched_device_spec(old(device_id)@, name@, rows@),
        final(directx_version)@ == enriched_dx_spec(old(directx_version)@, name@, rows@),
{
    let key = lower_two_token_prefix(name);
    let ghost k = two_token_prefix(lower(name@));
    proof {
        assert(rows@.skip(0) =~= rows@);
    }
    let mut i: usize = 0;
    while i < rows.len()
        invariant
            i <= rows@.len(),
            k == two_token_prefix(lower(name@)),
            key@ == k,
            find_controller_rec(rows@, k) == find_controller_rec(rows@.skip(i as int), k),
            *device_id == *old(device_id),
            *directx_version == *old(directx_version),
        decreases rows@.len() - i,
    {
        proof {
            assert(rows@.skip(i as int)[0] == rows@[i as int]);
        }
        let matched: bool = match &rows[i].name {
            Some(n) => contains_in_lower(n.as_str(), key.as_str()),
            None => false,
        };
        if matched {
            match &rows[i].pnp_device_id {
                Some(p) => {
                    *device_id = p.clone();
                },
                None => {},
            }
            match &rows[i].video_mode {
                Some(m) => {
                    if !m.as_str().is_empty() {
                        let mut dx = String::from_str("DirectX 12 (");
                        dx.append(m.as_str());
                        dx.append(")");
                        *directx_version = dx;
                    }
                },
                None => {},
            }
            return ;
        }
        proof {
            assert(rows@.skip(i as int).drop_first() =~= rows@.skip(i as int + 1));
        }
        i += 1;
    }
    proof {
        assert(rows@.skip(i as int).len() == 0);
    }
}

/// The first location string mentioning PCI, in inventory order.
pub open spec fn find_pci_rec(locations: Seq<String>) -> Option<Seq<char>>
    decreases locations.len(),
{
    if locations.len() <= 0 {
        None
    } else if has_sub(locations[0]@, "PCI"@) {
        Some(locations[0]@)
    } else {
        find_pci_rec(locations.drop_first())
    }
}

/// The PCI slot text: the first location string mentioning PCI, else the
/// sentinel.
pub fn find_pci_slot(locations: &Vec<String>) -> (r: String)
    ensures
        r@ == match find_pci_rec(locations@) {
            Some(l) => l,
            None => "Unknown"@,
        },
{
    proof {
        assert(locations@.skip(0) =~= locations@);
    }
    let mut i: usize = 0;
    while i < locations.len()
        invariant
            i <= locations@.len(),
            find_pci_rec(locations@) == find_pci_rec(locations@.skip(i as int)),
        decreases locations@.len() - i,
    {
        proof {
            assert(locations@.skip(i as int)[0] == locations@[i as int]);
        }
        if contains_sub(locations[i].as_str(), "PCI") {
            return locations[i].clone();
        }
        proof {
            assert(locations@.skip(i as int).drop_first() =~= locations@.skip(i as int + 1));
        }
        i += 1;
    }
    proof {
        assert(locations@.skip(i as int).len() == 0);
    }
    String::from_str("Unknown")
}

/// Synthetic memory accounting: a sixth of the total counted as used, the
/// remainder as free, both zero when no total is known; used and free never
/// exceed the total together.
pub fn derive_memory_split(total: u64) -> (r: (u64, u64))
    ensures
        r.0 == if total > 0 {
            total / 6
        } else {
            0u64
        },
        r.1 == if total > r.0 {
            (total - r.0) as u64
        } else {
            0u64
        },
        r.0 + r.1 <= total,
{
    let used: u64 = if total > 0 {
        total / 6
    } else {
        0
    };
    let free: u64 = if total > used {
        total - used
    } else {
        0
    };
    (used, free)
}

/// Builds the GPU snapshot from the registry entries, the CPU brand and
/// memory total for the fallback, the sensor list, and the two inventory
/// result sets.
///
/// `adapters` is `None` exactly when the display-adapter registry hive
/// itself could not be opened — the one hard failure of the whole query,
/// reported as the error text. Everything else is best-effort.
pub fn build_gpu_info(
    adapters: &Option<Vec<Option<AdapterValues>>>,
    cpu_brand: Option<String>,
    total_memory: u64,
    sensors: &Vec<SensorReading>,
    controllers: &Vec<ControllerRow>,
    locations: &Vec<String>,
) -> (r: Result<GpuInfo, String>)
    ensures
        r is Err <==> (*adapters) is None,
        r is Err ==> r->Err_0@ == "Can't access GPU registry"@,
        (*adapters) is Some ==> ({
            let g = r->Ok_0;
            let base = base_spec(adapters->0@, cpu_brand, total_memory);
            &&& g.name@ == base.name
            &&& g.driver_version@ == base.driver_version
            &&& g.memory_total == base.memory_total
            &&& g.memory_used == (if base.memory_total > 0 {
                base.memory_total / 6 as u64
            } else {
                0u64
            })
            &&& g.memory_free == (if base.memory_total > g.memory_used {
                (base.memory_total - g.memory_used) as u64
            } else {
                0u64
            })
            &&& (g.temperature_tenths, g.temp_available) == gpu_temp_spec(sensors@)
            &&& g.power_usage == 0
            &&& g.utilization == 0
            &&& g.fan_speed == 0
            &&& g.gpu_type@ == gpu_type_spec(base.name)
            &&& g.vendor@ == gpu_caps_spec(base.name).vendor
            &&& g.architecture@ == gpu_caps_spec(base.name).architecture
            &&& g.memory_type@ == gpu_caps_spec(base.name).memory_type
            &&& g.memory_bus_width == gpu_caps_spec(base.name).memory_bus_width
            &&& g.opengl_version@ == gpu_caps_spec(base.name).opengl_version
            &&& g.vulkan_support == gpu_caps_spec(base.name).vulkan_support
            &&& g.device_id@ == enriched_device_spec(base.device_id, base.name, controllers@)
            &&& g.directx_version@ == enriched_dx_spec(
                gpu_caps_spec(base.name).directx_version,
                base.name,
                controllers@,
            )
            &&& g.pci_slot@ == (match find_pci_rec(locations@) {
                Some(l) => l,
                None => "Unknown"@,
            })
            &&& g.base_clock == 0
            &&& g.boost_clock == 0
            &&& g.memory_clock == 0
            &&& g.shader_units == 0
            &&& g.tmu_count == 0
            &&& g.rop_count == 0
        }),
{
    let entries = match adapters {
        Some(e) => e,
        None => {
            return Err(String::from_str("Can't access GPU registry"));
        },
    };
    let base: AdapterChoice = match select_adapter(entries) {
        Some(c) => c,
        None => integrated_fallback(&cpu_brand, total_memory),
    };
    let gpu_type = get_gpu_type(base.name.as_str());
    let caps = get_gpu_caps(base.name.as_str());
    let (temperature_tenths, temp_available) = get_gpu_temp(sensors);
    let (memory_used, memory_free) = derive_memory_split(base.memory_total);
    let mut device_id = base.device_id;
    let mut directx_version = caps.directx_version;
    enrich_from_controllers(&mut device_id, &mut directx_version, base.name.as_str(), controllers);
    let pci_slot = find_pci_slot(locations);
    Ok(
        GpuInfo {
            name: base.name,
            driver_version: base.driver_version,
            memory_total: base.memory_total,
            memory_used,
            memory_free,
            temperature_tenths,
            temp_available,
            power_usage: 0,
            utilization: 0,
            fan_speed: 0,
            gpu_type,
            vendor: caps.vendor,
            architecture: caps.architecture,
            device_id,
            pci_slot,
            memory_type: caps.memory_type,
            memory_bus_width: caps.memory_bus_width,
            base_clock: 0,
            boost_clock: 0,
            memory_clock: 0,
            shader_units: 0,
            tmu_count: 0,
            rop_count: 0,
            directx_version,
            opengl_version: caps.opengl_version,
            vulkan_support: caps.vulkan_support,
        },
    )
}

/// Law: classification is ASCII case-insensitive — two names that agree
/// after case folding receive the same type text and the same capability
/// record.
pub proof fn lemma_classification_case_insensitive(a: Seq<char>, b: Seq<char>)
    requires
        lower(a) == lower(b),
    ensures
        gpu_type_spec(a) == gpu_type_spec(b),
        gpu_caps_spec(a) == gpu_caps_spec(b),
{
}

/// Law: among names free of an Intel marker, an AMD name classifies as
/// integrated exactly when it also carries an integrated or APU marker,
/// and as discrete otherwise.
pub proof fn lemma_amd_type(n: Seq<char>)
    requires
        !has_sub_ci(n, "intel"@),
        has_sub_ci(n, "amd"@),
    ensures
        (has_sub_ci(n, "integrated"@) || has_sub_ci(n, "apu"@)) ==> gpu_type_spec(n)
            == "Integrated (AMD)"@,
        !(has_sub_ci(n, "integrated"@) || has_sub_ci(n, "apu"@)) ==> gpu_type_spec(n)
            == "Discrete (AMD)"@,
{
}

} // verus!
