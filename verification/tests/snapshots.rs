use hwtelemetry::cpu::{build_cpu_info, kb_if_positive, kb_if_present, CpuSample, ProcessorFacts};
use hwtelemetry::gpu::{
    build_gpu_info, derive_memory_split, select_adapter, AdapterValues, ControllerRow,
};
use hwtelemetry::sensors::SensorReading;

fn adapter(desc: Option<&str>, mem32: Option<u32>, mem64: Option<u64>) -> Option<AdapterValues> {
    Some(AdapterValues {
        description: desc.map(|d| d.to_string()),
        driver_version: Some("31.0.15".to_string()),
        device_id: Some("PCI\\VEN_10DE&DEV_2684".to_string()),
        memory_size_32: mem32,
        memory_size_64: mem64,
    })
}

fn no_sensors() -> Vec<SensorReading> {
    Vec::new()
}

fn no_rows() -> Vec<ControllerRow> {
    Vec::new()
}

fn no_locations() -> Vec<String> {
    Vec::new()
}

#[test]
fn memory_total_prefers_32_bit_encoding() {
    let entries = Some(vec![adapter(Some("NVIDIA GeForce RTX 4090"), Some(1024), Some(999_999))]);
    let g = build_gpu_info(&entries, None, 0, &no_sensors(), &no_rows(), &no_locations()).unwrap();
    assert_eq!(g.memory_total, 1024);
}

#[test]
fn memory_total_uses_64_bit_encoding_when_32_bit_read_failed() {
    let entries = Some(vec![adapter(Some("NVIDIA GeForce RTX 4090"), None, Some(4096))]);
    let g = build_gpu_info(&entries, None, 0, &no_sensors(), &no_rows(), &no_locations()).unwrap();
    assert_eq!(g.memory_total, 4096);
    let none = Some(vec![adapter(Some("NVIDIA GeForce RTX 4090"), None, None)]);
    let g2 = build_gpu_info(&none, None, 0, &no_sensors(), &no_rows(), &no_locations()).unwrap();
    assert_eq!(g2.memory_total, 0);
}

#[test]
fn memory_split_is_a_sixth_used() {
    assert_eq!(derive_memory_split(6000), (1000, 5000));
    assert_eq!(derive_memory_split(7), (1, 6));
    assert_eq!(derive_memory_split(5), (0, 5));
    assert_eq!(derive_memory_split(0), (0, 0));
}

#[test]
fn memory_split_applies_to_snapshot() {
    let entries = Some(vec![adapter(Some("NVIDIA GeForce RTX 4090"), Some(24576), None)]);
    let g = build_gpu_info(&entries, None, 0, &no_sensors(), &no_rows(), &no_locations()).unwrap();
    assert_eq!(g.memory_used, 24576 / 6);
    assert_eq!(g.memory_free, 24576 - 24576 / 6);
    assert!(g.memory_used + g.memory_free <= g.memory_total);
}

#[test]
fn adapter_at_last_scanned_index_is_found() {
    let mut entries: Vec<Option<AdapterValues>> = Vec::new();
    for _ in 0..5 {
        entries.push(None);
    }
    entries.push(adapter(Some(""), Some(1), None));
    for _ in 6..9 {
        entries.push(adapter(Some("Microsoft Basic Display Adapter"), Some(2), None));
    }
    entries.push(adapter(Some("AMD Radeon RX 6800"), Some(16384), None));
    assert_eq!(entries.len(), 10);
    let wrapped = Some(entries);
    let g = build_gpu_info(&wrapped, None, 0, &no_sensors(), &no_rows(), &no_locations()).unwrap();
    assert_eq!(g.name, "AMD Radeon RX 6800");
    assert_eq!(g.memory_total, 16384);
    assert_eq!(g.gpu_type, "Discrete (AMD)");
}

#[test]
fn adapter_beyond_the_scan_limit_is_ignored() {
    let mut entries: Vec<Option<AdapterValues>> = Vec::new();
    for _ in 0..10 {
        entries.push(adapter(Some("Microsoft Basic Display Adapter"), Some(2), None));
    }
    entries.push(adapter(Some("NVIDIA GeForce RTX 4090"), Some(24576), None));
    assert!(select_adapter(&entries).is_none());
    let wrapped = Some(entries);
    let g = build_gpu_info(&wrapped, None, 8_000_000, &no_sensors(), &no_rows(), &no_locations())
        .unwrap();
    assert_eq!(g.name, "Integrated Graphics");
}

#[test]
fn all_placeholder_adapters_fall_back_to_integrated_synthesis() {
    let entries = Some(vec![
        adapter(Some(""), Some(7), None),
        adapter(Some("Microsoft Basic Display Adapter"), Some(7), None),
        None,
        adapter(None, Some(7), None),
    ]);
    let ram: u64 = 16_000_000_000;
    let g = build_gpu_info(
        &entries,
        Some("Intel(R) Core(TM) i7".to_string()),
        ram,
        &no_sensors(),
        &no_rows(),
        &no_locations(),
    )
    .unwrap();
    assert_eq!(g.name, "Intel Integrated Graphics");
    assert_eq!(g.driver_version, "Built-in");
    assert_eq!(g.memory_total, ram / 8);
    assert_eq!(g.gpu_type, "Integrated (Intel)");
}

#[test]
fn integrated_synthesis_brand_cases() {
    let entries = Some(vec![None]);
    let amd = build_gpu_info(
        &entries,
        Some("AMD Ryzen 7".to_string()),
        800,
        &no_sensors(),
        &no_rows(),
        &no_locations(),
    )
    .unwrap();
    assert_eq!(amd.name, "AMD Integrated Graphics");
    assert_eq!(amd.memory_total, 100);
    // the brand match of the fallback is case-sensitive
    let other = build_gpu_info(
        &entries,
        Some("intel core".to_string()),
        800,
        &no_sensors(),
        &no_rows(),
        &no_locations(),
    )
    .unwrap();
    assert_eq!(other.name, "Integrated Graphics");
    let none = build_gpu_info(&entries, None, 800, &no_sensors(), &no_rows(), &no_locations())
        .unwrap();
    assert_eq!(none.name, "Integrated Graphics");
}

#[test]
fn inaccessible_registry_is_the_only_error() {
    let r = build_gpu_info(&None, None, 0, &no_sensors(), &no_rows(), &no_locations());
    assert_eq!(r.unwrap_err(), "Can't access GPU registry");
}

#[test]
fn controller_match_enriches_device_id_and_directx_text() {
    let entries = Some(vec![adapter(Some("NVIDIA GeForce RTX 4090"), Some(24576), None)]);
    let rows = vec![
        ControllerRow { name: None, pnp_device_id: None, video_mode: None },
        ControllerRow {
            name: Some("Some Other Card".to_string()),
            pnp_device_id: Some("PCI\\VEN_FFFF".to_string()),
            video_mode: Some("640 x 480".to_string()),
        },
        ControllerRow {
            name: Some("NVIDIA GeForce RTX 4090 Founders Edition".to_string()),
            pnp_device_id: Some("PCI\\VEN_10DE&DEV_2684&SUBSYS".to_string()),
            video_mode: Some("3840 x 2160 x 4294967296 colors".to_string()),
        },
    ];
    let locations = vec!["USB hub".to_string(), "PCI bus 1, device 0, function 0".to_string()];
    let g = build_gpu_info(&entries, None, 0, &no_sensors(), &rows, &locations).unwrap();
    assert_eq!(g.device_id, "PCI\\VEN_10DE&DEV_2684&SUBSYS");
    assert_eq!(g.directx_version, "DirectX 12 (3840 x 2160 x 4294967296 colors)");
    assert_eq!(g.pci_slot, "PCI bus 1, device 0, function 0");
}

#[test]
fn no_controller_match_keeps_registry_identity() {
    let entries = Some(vec![adapter(Some("NVIDIA GeForce RTX 4090"), Some(24576), None)]);
    let rows = vec![ControllerRow {
        name: Some("AMD Radeon RX 6800".to_string()),
        pnp_device_id: Some("PCI\\VEN_1002".to_string()),
        video_mode: Some("640 x 480".to_string()),
    }];
    let g = build_gpu_info(&entries, None, 0, &no_sensors(), &rows, &no_locations()).unwrap();
    assert_eq!(g.device_id, "PCI\\VEN_10DE&DEV_2684");
    assert_eq!(g.directx_version, "DirectX 12");
    assert_eq!(g.pci_slot, "Unknown");
}

#[test]
fn matching_controller_without_fields_changes_nothing() {
    let entries = Some(vec![adapter(Some("NVIDIA GeForce RTX 4090"), Some(24576), None)]);
    let rows = vec![ControllerRow {
        name: Some("nvidia geforce rtx 4090".to_string()),
        pnp_device_id: None,
        video_mode: Some("".to_string()),
    }];
    let g = build_gpu_info(&entries, None, 0, &no_sensors(), &rows, &no_locations()).unwrap();
    assert_eq!(g.device_id, "PCI\\VEN_10DE&DEV_2684");
    assert_eq!(g.directx_version, "DirectX 12");
}

#[test]
fn gpu_placeholder_counters_are_zero() {
    let entries = Some(vec![adapter(Some("NVIDIA GeForce RTX 4090"), Some(24576), None)]);
    let g = build_gpu_info(&entries, None, 0, &no_sensors(), &no_rows(), &no_locations()).unwrap();
    assert_eq!(g.power_usage, 0);
    assert_eq!(g.utilization, 0);
    assert_eq!(g.fan_speed, 0);
    assert_eq!(g.base_clock, 0);
    assert_eq!(g.boost_clock, 0);
    assert_eq!(g.memory_clock, 0);
    assert_eq!(g.shader_units, 0);
    assert_eq!(g.tmu_count, 0);
    assert_eq!(g.rop_count, 0);
}

#[test]
fn cpu_snapshot_with_all_sources_present() {
    let sample = CpuSample {
        brand: Some("13th Gen Intel(R) Core(TM) i7-13700K".to_string()),
        frequency: Some(3400),
        logical_cores: 16,
        physical_cores: Some(8),
        usage_centi: 1234,
        per_core_usage_centi: vec![100, 200, 300],
    };
    let sensors = vec![SensorReading { label: "CPU Package".to_string(), temp_tenths: 455 }];
    let zones: Vec<u64> = vec![];
    let facts = Some(ProcessorFacts {
        name: Some("13th Gen Intel(R) Core(TM) i7-13700K".to_string()),
        l2_cache_kb: Some(24576),
        l3_cache_kb: Some(30720),
        socket: Some("LGA1700".to_string()),
    });
    let c = build_cpu_info(sample, &sensors, &zones, Some(5400), facts, Some(2048), 90000, true,
        false);
    assert_eq!(c.brand, "13th Gen Intel(R) Core(TM) i7-13700K");
    assert_eq!(c.frequency, 3400);
    assert_eq!(c.cores, 8);
    assert_eq!(c.logical_cores, 16);
    assert_eq!(c.usage_centi, 1234);
    assert_eq!(c.per_core_usage_centi, vec![100, 200, 300]);
    assert_eq!(c.temperature_tenths, 455);
    assert!(c.temp_available);
    assert_eq!(c.vendor, "Intel");
    assert_eq!(c.architecture, "x64");
    assert_eq!(c.max_frequency, 5400);
    assert_eq!(c.cache_l1, "2048 KB");
    assert_eq!(c.cache_l2, "24576 KB");
    assert_eq!(c.cache_l3, "30720 KB");
    assert_eq!(c.socket, "LGA1700");
    assert_eq!(c.process_node, "Intel 7 (10nm)");
    assert_eq!(c.uptime, "1d 1h 0m");
}

#[test]
fn cpu_snapshot_with_every_source_absent_is_all_sentinels() {
    let sample = CpuSample {
        brand: None,
        frequency: None,
        logical_cores: 4,
        physical_cores: None,
        usage_centi: 0,
        per_core_usage_centi: vec![],
    };
    let sensors: Vec<SensorReading> = vec![];
    let zones: Vec<u64> = vec![];
    let c = build_cpu_info(sample, &sensors, &zones, None, None, None, 120, false, false);
    assert_eq!(c.brand, "N/A");
    assert_eq!(c.frequency, 0);
    assert_eq!(c.cores, 4);
    assert_eq!(c.logical_cores, 4);
    assert_eq!(c.temperature_tenths, 0);
    assert!(!c.temp_available);
    assert_eq!(c.vendor, "Other");
    assert_eq!(c.architecture, "Other");
    assert_eq!(c.max_frequency, 0);
    assert_eq!(c.cache_l1, "Unknown");
    assert_eq!(c.cache_l2, "Unknown");
    assert_eq!(c.cache_l3, "Unknown");
    assert_eq!(c.socket, "Unknown");
    assert_eq!(c.process_node, "Unknown");
    assert_eq!(c.uptime, "2m");
}

#[test]
fn rated_clock_falls_back_to_sampled_frequency() {
    let sample = CpuSample {
        brand: Some("AMD Ryzen 7 5800X".to_string()),
        frequency: Some(3800),
        logical_cores: 16,
        physical_cores: Some(8),
        usage_centi: 0,
        per_core_usage_centi: vec![],
    };
    let sensors: Vec<SensorReading> = vec![];
    let zones: Vec<u64> = vec![];
    let c = build_cpu_info(sample, &sensors, &zones, None, None, None, 0, true, false);
    assert_eq!(c.max_frequency, 3800);
    assert_eq!(c.vendor, "AMD");
}

#[test]
fn cache_labels_differ_on_zero_readings() {
    // the first-level label comes from the inventory record and reports a
    // zero reading as text, the others treat zero as unavailable
    assert_eq!(kb_if_present(Some(0)), "0 KB");
    assert_eq!(kb_if_positive(Some(0)), "Unknown");
    assert_eq!(kb_if_present(None), "Unknown");
    assert_eq!(kb_if_positive(Some(512)), "512 KB");
}

#[test]
fn cpu_details_from_inventory_record() {
    let facts = Some(ProcessorFacts {
        name: Some("AMD Ryzen 9 7000 Series".to_string()),
        l2_cache_kb: Some(16384),
        l3_cache_kb: Some(0),
        socket: Some("AM5".to_string()),
    });
    let d = hwtelemetry::cpu::get_cpu_details(facts, None);
    assert_eq!(d.cache_l1, "Unknown");
    assert_eq!(d.cache_l2, "16384 KB");
    assert_eq!(d.cache_l3, "Unknown");
    assert_eq!(d.socket, "AM5");
    assert_eq!(d.process_node, "5nm (TSMC)");
}

#[test]
fn empty_socket_text_is_unknown() {
    let sample = CpuSample {
        brand: None,
        frequency: None,
        logical_cores: 1,
        physical_cores: None,
        usage_centi: 0,
        per_core_usage_centi: vec![],
    };
    let facts = Some(ProcessorFacts {
        name: None,
        l2_cache_kb: Some(0),
        l3_cache_kb: None,
        socket: Some("".to_string()),
    });
    let sensors: Vec<SensorReading> = vec![];
    let zones: Vec<u64> = vec![];
    let c = build_cpu_info(sample, &sensors, &zones, None, facts, None, 0, true, false);
    assert_eq!(c.socket, "Unknown");
    assert_eq!(c.cache_l2, "Unknown");
    assert_eq!(c.cache_l3, "Unknown");
    assert_eq!(c.process_node, "Unknown");
}
