use hwtelemetry::cpu::{classify_cpu_vendor, guess_process_node, architecture_label};
use hwtelemetry::gpu::{get_gpu_caps, get_gpu_type};

#[test]
fn gpu_type_nvidia_upper_and_lower_agree() {
    assert_eq!(get_gpu_type("NVIDIA GeForce RTX 4090"), "Discrete (NVIDIA)");
    assert_eq!(get_gpu_type("nvidia geforce rtx 4090"), "Discrete (NVIDIA)");
}

#[test]
fn gpu_caps_nvidia_upper_and_lower_agree() {
    let upper = get_gpu_caps("NVIDIA GeForce RTX 4090");
    let lower = get_gpu_caps("nvidia geforce rtx 4090");
    assert_eq!(upper.vendor, "NVIDIA");
    assert_eq!(upper.architecture, "Ada Lovelace");
    assert_eq!(upper.memory_bus_width, 384);
    assert_eq!(upper.memory_type, "GDDR6X");
    assert_eq!(lower.vendor, upper.vendor);
    assert_eq!(lower.architecture, upper.architecture);
    assert_eq!(lower.memory_bus_width, upper.memory_bus_width);
    assert_eq!(lower.memory_type, upper.memory_type);
    assert_eq!(lower.directx_version, upper.directx_version);
    assert_eq!(lower.opengl_version, upper.opengl_version);
    assert_eq!(lower.vulkan_support, upper.vulkan_support);
}

#[test]
fn gpu_type_amd_apu_is_integrated() {
    assert_eq!(get_gpu_type("AMD Radeon Graphics APU"), "Integrated (AMD)");
    assert_eq!(get_gpu_type("AMD Radeon integrated graphics"), "Integrated (AMD)");
}

#[test]
fn gpu_type_amd_without_marker_is_discrete() {
    assert_eq!(get_gpu_type("AMD Radeon RX 7900 XTX"), "Discrete (AMD)");
    assert_eq!(get_gpu_type("amd rx 580"), "Discrete (AMD)");
}

#[test]
fn gpu_type_intel_wins_over_later_blocks() {
    assert_eq!(get_gpu_type("Intel(R) UHD Graphics 770"), "Integrated (Intel)");
}

#[test]
fn gpu_type_generic_and_unknown() {
    assert_eq!(get_gpu_type("Microsoft Basic Display Adapter"), "Integrated Graphics");
    assert_eq!(get_gpu_type("Integrated Graphics"), "Integrated Graphics");
    assert_eq!(get_gpu_type("Matrox G200"), "Unknown Type");
}

#[test]
fn gpu_caps_ampere_memory_types() {
    let c3090 = get_gpu_caps("NVIDIA GeForce RTX 3090");
    assert_eq!(c3090.architecture, "Ampere");
    assert_eq!(c3090.memory_type, "GDDR6X");
    assert_eq!(c3090.memory_bus_width, 384);
    let c3070 = get_gpu_caps("NVIDIA GeForce RTX 3070");
    assert_eq!(c3070.memory_type, "GDDR6");
    assert_eq!(c3070.memory_bus_width, 256);
    let c3080 = get_gpu_caps("NVIDIA GeForce RTX 3080");
    assert_eq!(c3080.memory_bus_width, 320);
}

#[test]
fn gpu_caps_turing_ti_override() {
    let c = get_gpu_caps("NVIDIA GeForce RTX 2080 Ti");
    assert_eq!(c.architecture, "Turing");
    assert_eq!(c.memory_bus_width, 352);
    let plain = get_gpu_caps("NVIDIA GeForce RTX 2080");
    assert_eq!(plain.memory_bus_width, 256);
}

#[test]
fn gpu_caps_unmatched_model_keeps_vendor_defaults() {
    let c = get_gpu_caps("NVIDIA T400");
    assert_eq!(c.vendor, "NVIDIA");
    assert_eq!(c.architecture, "Unknown");
    assert_eq!(c.memory_type, "Unknown");
    assert_eq!(c.memory_bus_width, 0);
    assert_eq!(c.directx_version, "DirectX 12");
    assert_eq!(c.opengl_version, "OpenGL 4.6");
    assert!(c.vulkan_support);
}

#[test]
fn gpu_caps_amd_generations() {
    let c79 = get_gpu_caps("AMD Radeon RX 7900 XT");
    assert_eq!(c79.architecture, "RDNA 3");
    assert_eq!(c79.memory_bus_width, 384);
    let c68 = get_gpu_caps("AMD Radeon RX 6800");
    assert_eq!(c68.architecture, "RDNA 2");
    assert_eq!(c68.memory_bus_width, 256);
    let c57 = get_gpu_caps("AMD Radeon RX 5700 XT");
    assert_eq!(c57.architecture, "RDNA");
    assert_eq!(c57.memory_bus_width, 256);
}

#[test]
fn gpu_caps_intel_generations() {
    let arc = get_gpu_caps("Intel Arc A770");
    assert_eq!(arc.architecture, "Xe-HPG (Alchemist)");
    assert_eq!(arc.memory_bus_width, 256);
    assert_eq!(arc.opengl_version, "OpenGL 4.5");
    let xe = get_gpu_caps("Intel Iris Xe Graphics");
    assert_eq!(xe.architecture, "Xe-LP");
    assert_eq!(xe.memory_type, "System RAM");
    let uhd = get_gpu_caps("Intel UHD Graphics 630");
    assert_eq!(uhd.architecture, "Gen 9.5/Gen 11");
    assert_eq!(uhd.memory_bus_width, 64);
}

#[test]
fn gpu_caps_unknown_vendor_is_all_sentinels() {
    let c = get_gpu_caps("Matrox G200");
    assert_eq!(c.vendor, "Unknown");
    assert_eq!(c.architecture, "Unknown");
    assert_eq!(c.directx_version, "Unknown");
    assert_eq!(c.opengl_version, "Unknown");
    assert!(!c.vulkan_support);
    assert_eq!(c.memory_bus_width, 0);
}

#[test]
fn cpu_vendor_classification() {
    assert_eq!(classify_cpu_vendor("Intel(R) Core(TM) i7-12700K"), "Intel");
    assert_eq!(classify_cpu_vendor("intel celeron"), "Intel");
    assert_eq!(classify_cpu_vendor("AMD Ryzen 7 5800X"), "AMD");
    assert_eq!(classify_cpu_vendor("amd athlon"), "AMD");
    assert_eq!(classify_cpu_vendor("Apple M2"), "Other");
}

#[test]
fn architecture_labels() {
    assert_eq!(architecture_label(true, false), "x64");
    assert_eq!(architecture_label(false, true), "ARM64");
    assert_eq!(architecture_label(false, false), "Other");
    assert_eq!(architecture_label(true, true), "x64");
}

#[test]
fn process_node_intel_generations() {
    assert_eq!(guess_process_node("13th Gen Intel(R) Core(TM) i9-13900K"), "Intel 7 (10nm)");
    assert_eq!(guess_process_node("12th Gen Intel(R) Core(TM) i5-12400"), "Intel 7 (10nm)");
    assert_eq!(guess_process_node("Intel(R) Core(TM) i5-1135G7"), "10nm SuperFin");
    assert_eq!(guess_process_node("Intel(R) Core(TM) i7-10700"), "14nm");
}

#[test]
fn process_node_amd_generations() {
    assert_eq!(guess_process_node("AMD Ryzen 7000 Series"), "5nm (TSMC)");
    assert_eq!(guess_process_node("AMD Ryzen 5000 Series"), "7nm (TSMC)");
    assert_eq!(guess_process_node("AMD Ryzen 3000 Series"), "7nm (TSMC)");
    assert_eq!(guess_process_node("AMD Ryzen 2000 Series"), "12nm (TSMC)");
    assert_eq!(guess_process_node("AMD Ryzen 1000 Series"), "14nm (GloFo)");
}

#[test]
fn process_node_unmatched_is_unknown() {
    assert_eq!(guess_process_node("Unknown"), "Unknown");
    assert_eq!(guess_process_node("AMD Ryzen 7 5800X"), "Unknown");
}
