use poost::endpoints::info::{
    describe_gpus, used_memory, CpuInfo, MemoryInfo, OsInfo, ServerInfoResponse,
};

#[test]
fn used_memory_is_what_is_not_available() {
    assert_eq!(used_memory(16, 4), 12);
    assert_eq!(used_memory(17_179_869_184, 4_294_967_296), 12_884_901_888);
    assert_eq!(used_memory(8, 8), 0);
    assert_eq!(used_memory(0, 0), 0);
    assert_eq!(used_memory(u64::MAX, 0), u64::MAX);
}

#[test]
fn more_available_than_total_memory_counts_as_none_used() {
    assert_eq!(used_memory(4, 16), 0);
    assert_eq!(used_memory(0, u64::MAX), 0);
}

#[test]
fn no_adapter_is_reported_as_such() {
    assert_eq!(describe_gpus(&Vec::new()), "No GPU detected");
}

#[test]
fn a_single_adapter_is_reported_by_name() {
    assert_eq!(describe_gpus(&vec!["Apple M2".to_string()]), "Apple M2");
}

#[test]
fn several_adapters_are_separated_by_middle_dots() {
    let names = vec!["NVIDIA A100".to_string(), "llvmpipe".to_string()];
    assert_eq!(describe_gpus(&names), "NVIDIA A100 · llvmpipe");
    assert_eq!(describe_gpus(&names), names.join(" · "));

    let names = vec!["a".to_string(), "".to_string(), "c".to_string()];
    assert_eq!(describe_gpus(&names), "a ·  · c");
}

#[test]
fn undisclosed_os_properties_are_unknown() {
    let os = OsInfo::new(Some("Ubuntu".to_string()), None, Some("6.8.0".to_string()));
    assert_eq!(os.name, "Ubuntu");
    assert_eq!(os.version, "Unknown");
    assert_eq!(os.kernel, "6.8.0");

    let os = OsInfo::new(None, Some("24.04".to_string()), None);
    assert_eq!(os.name, "Unknown");
    assert_eq!(os.version, "24.04");
    assert_eq!(os.kernel, "Unknown");
}

#[test]
fn undisclosed_core_count_is_zero() {
    let cpu = CpuInfo::new("Xeon".to_string(), None, 2400, "GenuineIntel".to_string());
    assert_eq!(cpu.model, "Xeon");
    assert_eq!(cpu.cores, 0);
    assert_eq!(cpu.frequency, 2400);
    assert_eq!(cpu.vendor, "GenuineIntel");

    let cpu = CpuInfo::new(String::new(), Some(16), 0, String::new());
    assert_eq!(cpu.cores, 16);
}

#[test]
fn server_info_holds_its_parts() {
    let info = ServerInfoResponse {
        cpu: CpuInfo::new("Xeon".to_string(), Some(8), 2400, "GenuineIntel".to_string()),
        memory: MemoryInfo {
            total: "16.00 GB".to_string(),
            available: "4.00 GB".to_string(),
            used: "12.00 GB".to_string(),
        },
        os: OsInfo::new(None, None, None),
        architecture: "x86_64".to_string(),
        gpu: describe_gpus(&Vec::new()),
    };
    assert!(!info.memory.total.is_empty());
    assert!(!info.os.name.is_empty());
    assert!(!info.architecture.is_empty());
    assert!(!info.gpu.is_empty());
    assert_eq!(info.cpu.cores, 8);
}
