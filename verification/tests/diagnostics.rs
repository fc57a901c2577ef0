use music_minder::diagnostics::{
    audio_devices_check, calculate_rating, default_output_device, issues, parse_active_scheme,
    parse_wave_formats, simd_check, AudioDeviceInfo, AudioDeviceType, AudioReadiness, CheckStatus,
    DiagnosticCheck, PowerInfo, TimerInfo, TimerMillis,
};
use music_minder::player::simd::SimdLevel;
use music_minder::diagnostics::{cores_check, frequency_check, processor_check, report_json, report_summary,
    parse_power_schemes};

#[test]
fn test_enumerate_audio_devices() {
    let devices = AudioDeviceInfo::enumerate();
    println!("Found {} audio devices:", devices.len());
    for device in &devices {
        let type_str = match device.device_type {
            AudioDeviceType::Output => "Output",
            AudioDeviceType::Input => "Input",
        };
        let default_str = if device.is_default { " [DEFAULT]" } else { "" };
        println!("  {} ({}){}", device.name, type_str, default_str);
        if !device.sample_rates.is_empty() {
            println!("    Sample rates: {:?}", device.sample_rates);
        }
        if let Some(ch) = device.channels {
            println!("    Channels: {}", ch);
        }
    }
}

fn check(status: CheckStatus) -> DiagnosticCheck {
    DiagnosticCheck {
        name: "c".to_string(),
        category: "x".to_string(),
        status,
        value: String::new(),
        recommendation: None,
    }
}

#[test]
fn rating_follows_failures_then_warnings() {
    assert_eq!(calculate_rating(&[check(CheckStatus::Pass), check(CheckStatus::Info)]), AudioReadiness::Excellent);
    assert_eq!(calculate_rating(&[check(CheckStatus::Warning)]), AudioReadiness::Good);
    assert_eq!(calculate_rating(&[check(CheckStatus::Warning), check(CheckStatus::Warning), check(CheckStatus::Warning)]), AudioReadiness::Fair);
    assert_eq!(calculate_rating(&[check(CheckStatus::Fail)]), AudioReadiness::Fair);
    assert_eq!(calculate_rating(&[check(CheckStatus::Fail), check(CheckStatus::Fail)]), AudioReadiness::Poor);
    assert_eq!(calculate_rating(&[]), AudioReadiness::Excellent);
    assert_eq!(AudioReadiness::Poor.as_str(), "Poor");
    assert_eq!(CheckStatus::Fail.emoji(), "✗");
}

#[test]
fn issues_are_warnings_and_failures() {
    let checks = vec![check(CheckStatus::Pass), check(CheckStatus::Warning), check(CheckStatus::Info), check(CheckStatus::Fail)];
    let found = issues(&checks);
    assert_eq!(found.len(), 2);
    assert_eq!(found[0].status, CheckStatus::Warning);
    assert_eq!(found[1].status, CheckStatus::Fail);
}

#[test]
fn wave_format_flags_give_sample_rates() {
    assert_eq!(parse_wave_formats(0), Vec::<u32>::new());
    assert_eq!(parse_wave_formats(0x0000_0002), vec![11025]);
    assert_eq!(parse_wave_formats(0x0000_0800 | 0x0000_1000), vec![44100, 48000]);
    assert_eq!(parse_wave_formats(0x000F_FFFF), vec![11025, 22050, 44100, 48000, 96000]);
}

#[test]
fn default_output_is_first_default_output_device() {
    let dev = |name: &str, t: AudioDeviceType, d: bool| AudioDeviceInfo {
        name: name.to_string(),
        device_type: t,
        is_default: d,
        sample_rates: vec![],
        channels: None,
    };
    let devices = vec![
        dev("Mic", AudioDeviceType::Input, true),
        dev("HDMI", AudioDeviceType::Output, false),
        dev("Speakers", AudioDeviceType::Output, true),
    ];
    assert_eq!(default_output_device(&devices), Some("Speakers".to_string()));
    assert_eq!(default_output_device(&devices[..2]), None);
}

#[test]
fn power_scheme_line_is_read() {
    let info = parse_active_scheme(
        "Power Scheme GUID: 8c5e7fda-e8bf-4a96-9a85-a6e23a8c635c  (High performance)\r\n",
    )
    .unwrap();
    assert_eq!(info.scheme_guid, "8c5e7fda-e8bf-4a96-9a85-a6e23a8c635c");
    assert_eq!(info.scheme_name, "High performance");
    assert!(info.is_high_performance);
    assert_eq!(info.to_check().status, CheckStatus::Pass);

    let balanced = parse_active_scheme(
        "Power Scheme GUID: 381b4222-f694-41f0-9685-ff5bb260df2e  (Balanced)",
    )
    .unwrap();
    assert!(!balanced.is_high_performance);
    assert_eq!(balanced.to_check().status, CheckStatus::Warning);

    assert!(parse_active_scheme("no scheme here").is_none());
    assert!(parse_active_scheme("").is_none());
    let unnamed = parse_active_scheme("GUID: abc").unwrap();
    assert_eq!(unnamed.scheme_guid, "abc");
    assert_eq!(unnamed.scheme_name, "Unknown");
}

#[test]
fn power_saver_fails_the_check() {
    let p = PowerInfo {
        scheme_guid: "a1841308-3541-4fab-bc81-f71556f20b4a".to_string(),
        scheme_name: "Power saver".to_string(),
        is_high_performance: false,
    };
    let c = p.to_check();
    assert_eq!(c.status, CheckStatus::Fail);
    assert_eq!(c.value, "Power saver");
    assert!(c.recommendation.is_some());
    assert!(PowerInfo::query().is_none());
}

#[test]
fn timer_resolution_thresholds() {
    let t = |us: u32| TimerInfo { best_resolution_us: 500, worst_resolution_us: 15625, current_resolution_us: us };
    assert_eq!(t(1000).status(), CheckStatus::Pass);
    assert_eq!(t(1001).status(), CheckStatus::Warning);
    assert_eq!(t(2000).status(), CheckStatus::Warning);
    assert_eq!(t(15625).status(), CheckStatus::Fail);
    assert!(TimerInfo::query().is_none());
}

#[test]
fn simd_and_device_checks() {
    let c = simd_check(SimdLevel::Scalar);
    assert_eq!(c.status, CheckStatus::Warning);
    assert_eq!(c.value, "Scalar (no SIMD)");
    assert!(c.recommendation.is_some());
    assert_eq!(simd_check(SimdLevel::Avx2).status, CheckStatus::Pass);
    assert!(audio_devices_check(0).is_none());
    assert_eq!(audio_devices_check(3).unwrap().value, "3 device(s) found");
}

#[test]
fn cpu_checks() {
    let p = processor_check("Ryzen", 8, 16);
    assert_eq!(p.value, "Ryzen (8 cores, 16 threads)");
    assert!(frequency_check(0).is_none());
    let f = frequency_check(1500).unwrap();
    assert_eq!(f.status, CheckStatus::Warning);
    assert_eq!(f.value, "1500 MHz");
    assert_eq!(frequency_check(3600).unwrap().status, CheckStatus::Pass);
    assert_eq!(cores_check(1).status, CheckStatus::Fail);
    assert_eq!(cores_check(4).value, "4 logical cores");
}

fn named(name: &str, status: CheckStatus, value: &str) -> DiagnosticCheck {
    DiagnosticCheck {
        name: name.to_string(),
        category: "Audio".to_string(),
        status,
        value: value.to_string(),
        recommendation: None,
    }
}

#[test]
fn summary_counts_issues() {
    assert_eq!(report_summary(AudioReadiness::Excellent, &[named("a", CheckStatus::Pass, "")]),
        format!("{} Excellent - No issues detected", AudioReadiness::Excellent.emoji()));
    let checks = vec![named("a", CheckStatus::Warning, ""), named("b", CheckStatus::Fail, ""), named("c", CheckStatus::Info, "")];
    assert_eq!(report_summary(AudioReadiness::Fair, &checks),
        format!("{} Fair - 2 issue(s) found", AudioReadiness::Fair.emoji()));
}

#[test]
fn test_report_json() {
    let checks = vec![named("SIMD", CheckStatus::Pass, "AVX2 \"fast\"")];
    let devices = vec![AudioDeviceInfo {
        name: "Out".to_string(),
        device_type: AudioDeviceType::Output,
        is_default: true,
        sample_rates: vec![],
        channels: None,
    }];
    let rating = calculate_rating(&checks);
    let json = report_json("2024-01-01T00:00:00+00:00", rating, &checks, &devices);
    assert!(json.contains("\"timestamp\""));
    assert!(json.contains("\"rating\""));
    assert!(json.contains("\"checks\""));
}

#[test]
fn report_json_layout() {
    let checks = vec![named("A", CheckStatus::Warning, "x\"y"), named("B", CheckStatus::Info, "z")];
    let devices = vec![
        AudioDeviceInfo { name: "Mic".to_string(), device_type: AudioDeviceType::Input, is_default: false, sample_rates: vec![], channels: None },
    ];
    let json = report_json("T", AudioReadiness::Good, &checks, &devices);
    let expected = "{\n  \"timestamp\": \"T\",\n  \"rating\": \"Good\",\n  \"checks\": [\n    {\"name\": \"A\", \"category\": \"Audio\", \"status\": \"warning\", \"value\": \"x\\\"y\"},\n    {\"name\": \"B\", \"category\": \"Audio\", \"status\": \"info\", \"value\": \"z\"}\n  ],\n  \"audio_devices\": [\n    {\"name\": \"Mic\", \"type\": \"input\", \"default\": false}\n  ]\n}";
    assert_eq!(json, expected);
    let empty = report_json("T", AudioReadiness::Excellent, &[], &[]);
    assert_eq!(empty, "{\n  \"timestamp\": \"T\",\n  \"rating\": \"Excellent\",\n  \"checks\": [\n  ],\n  \"audio_devices\": [\n  ]\n}");
}

#[test]
fn power_scheme_list_is_read() {
    let out = "\r\nExisting Power Schemes (* Active)\r\n-----------------------------------\r\n\
Power Scheme GUID: 381b4222-f694-41f0-9685-ff5bb260df2e  (Balanced) *\r\n\
Power Scheme GUID: 8c5e7fda-e8bf-4a96-9a85-a6e23a8c635c  (High performance)\r\n\
Power Scheme GUID: nospace\r\n\
Power Scheme GUID: a1841308-3541-4fab-bc81-f71556f20b4a  no name\n";
    let schemes = parse_power_schemes(out);
    assert_eq!(
        schemes,
        vec![
            ("381b4222-f694-41f0-9685-ff5bb260df2e".to_string(), "Balanced".to_string()),
            ("8c5e7fda-e8bf-4a96-9a85-a6e23a8c635c".to_string(), "High performance".to_string()),
        ]
    );
    assert!(parse_power_schemes("").is_empty());
    assert!(parse_power_schemes("GUID:x (y)").is_empty());
}

fn millis(current: &str, current_tenths: &str) -> TimerMillis {
    TimerMillis {
        current: current.to_string(),
        best: "0.50".to_string(),
        worst: "15.62".to_string(),
        current_tenths: current_tenths.to_string(),
        best_tenths: "0.5".to_string(),
    }
}

#[test]
fn timer_check_names_rates_and_advises() {
    let t = |us: u32| TimerInfo { best_resolution_us: 500, worst_resolution_us: 15625, current_resolution_us: us };
    let pass = t(1000).to_check(&millis("1.00", "1.0"));
    assert_eq!(pass.name, "Timer Resolution");
    assert_eq!(pass.category, "System");
    assert_eq!(pass.status, CheckStatus::Pass);
    assert_eq!(pass.value, "1.00ms (best: 0.50ms, worst: 15.62ms)");
    assert!(pass.recommendation.is_none());
    let warn = t(1500).to_check(&millis("1.50", "1.5"));
    assert_eq!(warn.status, CheckStatus::Warning);
    assert_eq!(
        warn.recommendation.as_deref(),
        Some("Timer resolution is slightly high. Some application may need to request higher resolution.")
    );
    let fail = t(15625).to_check(&millis("15.62", "15.6"));
    assert_eq!(fail.status, CheckStatus::Fail);
    assert_eq!(
        fail.recommendation.as_deref(),
        Some("Timer resolution is 15.6ms (default). For audio work, 0.5ms is available. Audio applications should request higher resolution automatically.")
    );
}

#[test]
fn kernel_timer_units_become_microseconds() {
    let t = TimerInfo::from_100ns_units(156250, 5000, 10009);
    assert_eq!(t.worst_resolution_us, 15625);
    assert_eq!(t.best_resolution_us, 500);
    assert_eq!(t.current_resolution_us, 1000);
}
