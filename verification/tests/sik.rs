use orion_eira_nexus::sik::{
    MemoryConstraint, NetworkEndpoint, PowerProfile, SikConfig, SovereignIndustrialKernel,
};

#[test]
fn test_default_config() {
    let sik = SovereignIndustrialKernel::default();
    assert!(sik.is_active());
    assert_eq!(sik.config().power.max_watts, 20);
    assert_eq!(sik.config().endpoint.port, 11434);
    assert_eq!(sik.config().endpoint.host, "localhost");
    assert!(sik.config().determinism_mode);
}

#[test]
fn test_memory_check_within_limit() {
    let sik = SovereignIndustrialKernel::default();
    assert!(sik.check_memory(256));
}

#[test]
fn test_memory_check_exceeds_limit() {
    let sik = SovereignIndustrialKernel::default();
    assert!(!sik.check_memory(1024));
}

#[test]
fn test_power_check_within_limit() {
    let sik = SovereignIndustrialKernel::default();
    assert!(sik.check_power(15));
}

#[test]
fn test_power_check_exceeds_limit() {
    let sik = SovereignIndustrialKernel::default();
    assert!(!sik.check_power(25));
}

#[test]
fn test_status_line_contains_key_fields() {
    let sik = SovereignIndustrialKernel::default();
    let line = sik.status_line();
    assert!(line.contains("20W"));
    assert!(line.contains("localhost:11434"));
    assert!(line.contains("determinism: ON"));
}

#[test]
fn test_power_profile_display() {
    let p = PowerProfile::default();
    assert_eq!(p.display_string(), "20W profile: ACTIVE");
}

#[test]
fn test_endpoint_display() {
    let e = NetworkEndpoint::default();
    assert_eq!(e.display_string(), "localhost:11434");
}

#[test]
fn test_custom_config() {
    let cfg = SikConfig {
        power: PowerProfile { max_watts: 10, enforced: true },
        ..SikConfig::default()
    };
    let sik = SovereignIndustrialKernel::new(cfg);
    assert!(!sik.check_power(15));
    assert!(sik.check_power(5));
}

#[test]
fn status_line_exact_text() {
    let sik = SovereignIndustrialKernel::default();
    assert_eq!(
        sik.status_line(),
        "SIK active | 20W profile: ACTIVE | endpoint: localhost:11434 | memory: 512MB | determinism: ON"
    );
    let cfg = SikConfig {
        power: PowerProfile { max_watts: 0, enforced: false },
        determinism_mode: false,
        ..SikConfig::default()
    };
    assert_eq!(
        SovereignIndustrialKernel::new(cfg).status_line(),
        "SIK active | 0W profile: INACTIVE | endpoint: localhost:11434 | memory: 512MB | determinism: OFF"
    );
}

#[test]
fn limits_are_inclusive_and_can_be_relaxed() {
    let sik = SovereignIndustrialKernel::default();
    assert!(sik.check_power(20));
    assert!(!sik.check_power(21));
    assert!(sik.check_memory(512));
    assert!(!sik.check_memory(513));
    let relaxed = SikConfig {
        memory: MemoryConstraint { max_mb: 1, enforced: false },
        power: PowerProfile { max_watts: 1, enforced: false },
        ..SikConfig::default()
    };
    let sik = SovereignIndustrialKernel::new(relaxed);
    assert!(sik.check_memory(u32::MAX));
    assert!(sik.check_power(u32::MAX));
}

#[test]
fn default_config_values() {
    let cfg = SikConfig::default();
    assert_eq!(cfg.memory.max_mb, 512);
    assert!(cfg.memory.enforced);
    assert!(cfg.power.enforced);
    assert_eq!(cfg.max_concurrent_proposals, 1);
}

#[test]
fn endpoint_display_custom() {
    let e = NetworkEndpoint { host: "10.0.0.7".to_string(), port: 8080 };
    assert_eq!(e.display_string(), "10.0.0.7:8080");
}

#[test]
fn boot_banner_lines_text() {
    let sik = SovereignIndustrialKernel::default();
    let lines = sik.boot_banner_lines();
    assert_eq!(lines.len(), 4);
    assert_eq!(lines[0], "[SIK] \u{1F527} Sovereign Industrial Kernel activated");
    assert_eq!(lines[1], "      \u{2192} 20W profile: ACTIVE");
    assert_eq!(lines[2], "      \u{2192} localhost:11434 ready");
    assert_eq!(lines[3], "      \u{2192} Resource constraints: ENFORCED");
    let relaxed = SikConfig {
        memory: MemoryConstraint { max_mb: 512, enforced: false },
        ..SikConfig::default()
    };
    let lines = SovereignIndustrialKernel::new(relaxed).boot_banner_lines();
    assert_eq!(lines[3], "      \u{2192} Resource constraints: RELAXED");
}
