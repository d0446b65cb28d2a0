use batlab::chain::Platform;
use batlab::error::TelemetryError;
use batlab::model::CommandOutcome;
use batlab::telemetry::{get_system_info, read_keyed_value, SystemReadings, Trimming};
use batlab::workload::{get_workload_description, valid_config_name};

fn ran(stdout: &str) -> CommandOutcome {
    CommandOutcome::Finished { success: true, stdout: stdout.to_string(), stderr: String::new() }
}

fn failed(stderr: &str) -> CommandOutcome {
    CommandOutcome::Finished { success: false, stdout: String::new(), stderr: stderr.to_string() }
}

fn readings() -> SystemReadings {
    SystemReadings {
        hostname: ran("laptop\n"),
        kernel: ran("6.8.0-45-generic\n"),
        os_name: ran("Linux 6.8.0-45-generic\n"),
        machine: ran("x86_64\n"),
        os_release: Some(
            "NAME=\"Ubuntu\"\nPRETTY_NAME=\"Ubuntu 24.04.1 LTS\"\nID=ubuntu\n".to_string(),
        ),
        cpuinfo: Some(
            "processor\t: 0\nvendor_id\t: GenuineIntel\nmodel name\t: Intel(R) Core(TM) i7-8650U CPU @ 1.90GHz\nmodel name\t: other\n"
                .to_string(),
        ),
        hw_model: ran("Intel(R) Core(TM) i5\n"),
        hw_machine: ran("amd64\n"),
    }
}

#[test]
fn linux_system_is_described_from_its_files() {
    let info = get_system_info(Platform::Linux, &readings()).unwrap();
    assert_eq!(info.hostname, "laptop");
    assert_eq!(info.kernel, "6.8.0-45-generic");
    assert_eq!(info.os, "Ubuntu 24.04.1 LTS");
    assert_eq!(info.cpu, "Intel(R) Core(TM) i7-8650U CPU @ 1.90GHz");
    assert_eq!(info.machine, "x86_64");
}

#[test]
fn linux_system_falls_back_to_uname() {
    let mut r = readings();
    r.os_release = None;
    r.cpuinfo = Some("processor: 0\n".to_string());
    let info = get_system_info(Platform::Linux, &r).unwrap();
    assert_eq!(info.os, "Linux 6.8.0-45-generic");
    assert_eq!(info.cpu, "");
    r.os_release = Some("ID=ubuntu\n".to_string());
    r.os_name = failed("no");
    r.cpuinfo = None;
    let info = get_system_info(Platform::Linux, &r).unwrap();
    assert_eq!(info.os, "");
    assert_eq!(info.cpu, "");
    r.machine = failed("uname: bad\n");
    match get_system_info(Platform::Linux, &r) {
        Err(TelemetryError::CommandFailed { command, message }) => {
            assert_eq!(command, "uname -m");
            assert_eq!(message, "uname: bad\n");
        }
        other => panic!("unexpected {:?}", other),
    }
}

#[test]
fn freebsd_system_is_described_from_sysctl() {
    let mut r = readings();
    r.os_name = ran("FreeBSD 14.1-RELEASE\n");
    let info = get_system_info(Platform::FreeBsd, &r).unwrap();
    assert_eq!(info.os, "FreeBSD 14.1-RELEASE");
    assert_eq!(info.cpu, "Intel(R) Core(TM) i5");
    assert_eq!(info.machine, "amd64");
    r.hw_machine = failed("unknown oid");
    assert_eq!(get_system_info(Platform::FreeBsd, &r).unwrap().machine, "x86_64");
    r.hw_model = CommandOutcome::NotStarted { message: "missing".to_string() };
    match get_system_info(Platform::FreeBsd, &r) {
        Err(TelemetryError::CommandFailed { command, message }) => {
            assert_eq!(command, "sysctl -n hw.model");
            assert_eq!(message, "missing");
        }
        other => panic!("unexpected {:?}", other),
    }
}

#[test]
fn other_systems_are_unknown() {
    let mut r = readings();
    r.os_name = failed("");
    r.machine = failed("");
    let info = get_system_info(Platform::Unsupported, &r).unwrap();
    assert_eq!(info.os, "Unknown");
    assert_eq!(info.cpu, "Unknown");
    assert_eq!(info.machine, "Unknown");
    assert_eq!(info.hostname, "laptop");
    let info = get_system_info(Platform::Unsupported, &readings()).unwrap();
    assert_eq!(info.os, "Linux 6.8.0-45-generic");
    assert_eq!(info.machine, "x86_64");
}

#[test]
fn host_name_and_kernel_are_required() {
    for platform in [Platform::FreeBsd, Platform::Linux, Platform::Unsupported] {
        let mut r = readings();
        r.kernel = failed("k");
        match get_system_info(platform, &r) {
            Err(TelemetryError::CommandFailed { command, .. }) => assert_eq!(command, "uname -r"),
            other => panic!("unexpected {:?}", other),
        }
        r.hostname = failed("h");
        match get_system_info(platform, &r) {
            Err(TelemetryError::CommandFailed { command, .. }) => assert_eq!(command, "hostname "),
            other => panic!("unexpected {:?}", other),
        }
    }
}

#[test]
fn keyed_values_are_cut_at_the_separator() {
    assert_eq!(
        read_keyed_value("A=1\nPRETTY_NAME=\"\"x=y\"\"\n", "PRETTY_NAME=", '=', Trimming::Quotes),
        Some("x".to_string())
    );
    assert_eq!(
        read_keyed_value("model name : a : b", "model name", ':', Trimming::Whitespace),
        Some("a".to_string())
    );
    assert_eq!(read_keyed_value("model name", "model name", ':', Trimming::Whitespace), None);
    assert_eq!(read_keyed_value(" model name: x", "model name", ':', Trimming::Whitespace), None);
    assert_eq!(
        read_keyed_value("k:", "k", ':', Trimming::Whitespace),
        Some(String::new())
    );
}

#[test]
fn configuration_names_hold_no_white_space() {
    assert!(valid_config_name("powersave-1"));
    assert!(valid_config_name("a_b"));
    assert!(!valid_config_name(""));
    assert!(!valid_config_name("power save"));
    assert!(!valid_config_name("tab\t"));
    assert!(!valid_config_name("\u{a0}x"));
}

#[test]
fn workload_describes_itself() {
    let script = "#!/bin/sh\n\ndescribe() {\n    echo \"Idle workload - sleep with screen on\"\n}\n\nrun() {\n    echo \"Running\"\n}\n";
    assert_eq!(
        get_workload_description(script),
        Some("Idle workload - sleep with screen on".to_string())
    );
    assert_eq!(get_workload_description("run() {\n  echo \"x\"\n}\n"), None);
    assert_eq!(get_workload_description("describe() {\n  true\n}\n"), None);
    assert_eq!(
        get_workload_description("describe() { :; }\n\techo 'single'  \n"),
        Some("single".to_string())
    );
    assert_eq!(
        get_workload_description("describe()\necho \"'both'\"\n"),
        Some("both".to_string())
    );
    assert_eq!(get_workload_description("describe()\necho \n"), None);
    assert_eq!(get_workload_description("describe()\necho  \"\"\n"), Some(" ".to_string()));
}
