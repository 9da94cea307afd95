use hydra_nexus::metrics::{cpu_idle_text, meminfo_value_text};

const TOP: &str = "top - 10:00:00 up 1 day,  1 user,  load average: 0.10, 0.20, 0.30\n\
Tasks: 200 total,   1 running, 199 sleeping\n\
%Cpu(s):  2.3 us,  0.8 sy,  0.0 ni, 96.5 id,  0.2 wa,  0.0 hi,  0.1 si,  0.0 st\n\
MiB Mem :  15936.0 total\n";

const MEMINFO: &str = "MemTotal:       16318480 kB\r\nMemFree:         1234567 kB\nMemAvailable:   12000000 kB\n";

#[test]
fn cpu_idle_field_of_top() {
    assert_eq!(cpu_idle_text(TOP), Some("96.5".to_string()));
    assert_eq!(cpu_idle_text("no cpu line here"), None);
    assert_eq!(cpu_idle_text("%Cpu(s): 1.0 us, 2.0 sy"), None);
    assert_eq!(cpu_idle_text("%Cpu(s): 1.0 us,\u{a0}  7.5\tid  "), Some("7.5".to_string()));
}

#[test]
fn meminfo_fields() {
    assert_eq!(meminfo_value_text(MEMINFO, "MemTotal"), Some("16318480".to_string()));
    assert_eq!(meminfo_value_text(MEMINFO, "MemAvailable"), Some("12000000".to_string()));
    assert_eq!(meminfo_value_text(MEMINFO, "SwapTotal"), None);
    assert_eq!(meminfo_value_text("MemTotal:", "MemTotal"), None);
}
