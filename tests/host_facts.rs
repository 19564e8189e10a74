use docker_monitor::host::{
    create_display_name, decimal_string, format_uptime, summarize_cpus, summarize_os, SysInfoError,
};

#[test]
fn decimal_of_numbers() {
    assert_eq!(decimal_string(0), "0");
    assert_eq!(decimal_string(7), "7");
    assert_eq!(decimal_string(1234567890), "1234567890");
    assert_eq!(decimal_string(u64::MAX), "18446744073709551615");
}

#[test]
fn uptime_minutes_only() {
    assert_eq!(format_uptime(0), "0m");
    assert_eq!(format_uptime(59), "0m");
    assert_eq!(format_uptime(60), "1m");
    assert_eq!(format_uptime(3599), "59m");
}

#[test]
fn uptime_hours_and_minutes() {
    assert_eq!(format_uptime(3600), "1h 0m");
    assert_eq!(format_uptime(7380), "2h 3m");
}

#[test]
fn uptime_days_hours_minutes() {
    assert_eq!(format_uptime(86400), "1d 0h 0m");
    assert_eq!(format_uptime(90061), "1d 1h 1m");
    assert_eq!(format_uptime(183840), "2d 3h 4m");
}

#[test]
fn display_name_from_drive_mount() {
    assert_eq!(create_display_name("Local Disk", "C:\\"), "C:");
    assert_eq!(create_display_name("sda1", "/"), "/:");
}

#[test]
fn display_name_from_plain_mount() {
    assert_eq!(create_display_name("sda2", "/home"), "/home");
}

#[test]
fn display_name_falls_back_to_raw_name() {
    assert_eq!(create_display_name("D:", ""), "D:");
    assert_eq!(create_display_name("disk0", ""), "disk0");
}

#[test]
fn cpu_summary_from_first_processor() {
    let c = summarize_cpus(Some(("Ryzen".to_string(), 3600)), 16, Some(8)).unwrap();
    assert_eq!(c.brand, "Ryzen");
    assert_eq!(c.frequency, 3600);
    assert_eq!(c.logical_cores, 16);
    assert_eq!(c.physical_cores, 8);
    let d = summarize_cpus(Some(("X".to_string(), 1)), 2, None).unwrap();
    assert_eq!(d.physical_cores, 0);
}

#[test]
fn cpu_summary_without_processors() {
    let e = summarize_cpus(None, 0, Some(4)).unwrap_err();
    assert_eq!(e, SysInfoError::System("No CPUs found".to_string()));
    assert_eq!(e.message(), "System info error: No CPUs found");
    assert_eq!(SysInfoError::Nvml("gone".to_string()).message(), "NVML error: gone");
}

#[test]
fn os_summary_complete() {
    let o = summarize_os(
        Some("Linux".to_string()),
        Some("24.04".to_string()),
        Some("6.8".to_string()),
        120,
        Ok("box".to_string()),
    )
    .unwrap();
    assert_eq!(o.name, "Linux");
    assert_eq!(o.version, "24.04");
    assert_eq!(o.kernel_version, "6.8");
    assert_eq!(o.hostname, "box");
    assert_eq!(o.uptime, 120);
}

#[test]
fn os_summary_first_missing_fact() {
    let s = |t: &str| Some(t.to_string());
    let host = || Ok("h".to_string());
    assert_eq!(
        summarize_os(None, None, None, 0, host()).unwrap_err(),
        SysInfoError::System("Could not determine OS name".to_string())
    );
    assert_eq!(
        summarize_os(s("a"), None, None, 0, host()).unwrap_err(),
        SysInfoError::System("Could not determine OS version".to_string())
    );
    assert_eq!(
        summarize_os(s("a"), s("b"), None, 0, host()).unwrap_err(),
        SysInfoError::System("Could not determine kernel version".to_string())
    );
    let no_host = Err(SysInfoError::System("Could not determine hostname".to_string()));
    assert_eq!(
        summarize_os(s("a"), s("b"), s("c"), 0, no_host.clone()).unwrap_err(),
        no_host.unwrap_err()
    );
}
