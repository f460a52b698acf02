use pico4u::commands::{
    auto_connect_after_connect, auto_connect_after_devices, auto_dim_args, auto_dim_when_due,
    connect_device_args, format_ip_address, format_log_line, get_device_serial_args,
    keep_awake_after_status, keep_awake_after_wakeup, keep_awake_status_args,
    keep_awake_wakeup_args, parse_device_ip, route_adb_command, should_wake, AdbRequest,
    AutoConnectNext, StatusDecision,
};
use pico4u::text::{join_from, str_contains, trim_str};
use pico4u::commands::{
    connect_to_args, fixed_command_args, keep_awake_step, FixedCommand, KeepAwakeAction,
    KeepAwakeEvent, KeepAwakePhase,
};

fn args(words: &[&str]) -> Vec<String> {
    words.iter().map(|w| w.to_string()).collect()
}

fn host(r: Result<AdbRequest, String>) -> String {
    match r {
        Ok(AdbRequest::Host(c)) => c,
        other => panic!("expected a host request, got {:?}", other),
    }
}

fn device(r: Result<AdbRequest, String>) -> (Option<String>, String) {
    match r {
        Ok(AdbRequest::Device { serial, command }) => (serial, command),
        other => panic!("expected a device request, got {:?}", other),
    }
}

#[test]
fn routes_host_services() {
    assert_eq!(host(route_adb_command(&args(&["devices"]))), "host:devices");
    assert_eq!(host(route_adb_command(&args(&["connect", "10.0.0.2:5555"]))), "host:connect:10.0.0.2:5555");
    assert_eq!(host(route_adb_command(&args(&["disconnect"]))), "host:disconnect:");
    assert_eq!(host(route_adb_command(&args(&["kill-server"]))), "host:kill");
}

#[test]
fn routes_device_services() {
    assert_eq!(device(route_adb_command(&args(&["tcpip", "5555"]))), (None, "tcpip:5555".to_string()));
    assert_eq!(device(route_adb_command(&args(&["usb"]))), (None, "usb:".to_string()));
    assert_eq!(
        device(route_adb_command(&args(&["shell", "ip", "addr", "show", "wlan0"]))),
        (None, "shell:ip addr show wlan0".to_string())
    );
    assert_eq!(device(route_adb_command(&args(&["shell"]))), (None, "shell:".to_string()));
    assert_eq!(
        device(route_adb_command(&args(&["-s", "1.2.3.4:5555", "shell", "dumpsys", "power"]))),
        (Some("1.2.3.4:5555".to_string()), "shell:dumpsys power".to_string())
    );
    assert_eq!(
        device(route_adb_command(&args(&["-s", "X", "tcpip", "5555"]))),
        (Some("X".to_string()), "tcpip:5555".to_string())
    );
    assert_eq!(device(route_adb_command(&args(&["-s", "X", "usb"]))), (Some("X".to_string()), "usb:".to_string()));
    assert_eq!(device(route_adb_command(&args(&["-s", "X", "shell"]))), (Some("X".to_string()), "shell:".to_string()));
}

#[test]
fn refuses_unsupported_lists() {
    assert_eq!(route_adb_command(&[]).unwrap_err(), "No ADB command provided");
    assert_eq!(route_adb_command(&args(&["connect"])).unwrap_err(), "Unsupported ADB command in wrapper: connect");
    assert_eq!(route_adb_command(&args(&["tcpip"])).unwrap_err(), "Unsupported ADB command in wrapper: tcpip");
    assert_eq!(route_adb_command(&args(&["reboot"])).unwrap_err(), "Unsupported ADB command in wrapper: reboot");
    assert_eq!(route_adb_command(&args(&["-s", "X"])).unwrap_err(), "Unsupported ADB command in wrapper: -s");
    assert_eq!(
        route_adb_command(&args(&["-s", "X", "reboot"])).unwrap_err(),
        "Unsupported device command with -s: reboot"
    );
    assert_eq!(
        route_adb_command(&args(&["-s", "X", "tcpip"])).unwrap_err(),
        "Unsupported device command with -s: tcpip"
    );
}

#[test]
fn formats_addresses() {
    assert_eq!(format_ip_address("192.168.1.10"), "192.168.1.10:5555");
    assert_eq!(format_ip_address("192.168.1.10:4444"), "192.168.1.10:4444");
    assert_eq!(format_ip_address(""), ":5555");
    let once = format_ip_address("10.0.0.1");
    assert_eq!(format_ip_address(&once), once);
}

#[test]
fn serial_and_command_arguments() {
    assert!(get_device_serial_args("").is_empty());
    assert_eq!(get_device_serial_args("10.0.0.1"), args(&["-s", "10.0.0.1:5555"]));
    assert_eq!(keep_awake_status_args(""), args(&["shell", "dumpsys", "power"]));
    assert_eq!(
        keep_awake_wakeup_args("10.0.0.1"),
        args(&["-s", "10.0.0.1:5555", "shell", "input", "keyevent", "224"])
    );
    assert_eq!(
        auto_dim_args("a:1"),
        args(&["-s", "a:1", "shell", "settings", "put", "system", "screen_brightness", "1"])
    );
}

#[test]
fn connect_arguments() {
    assert_eq!(connect_device_args(Some("10.0.0.1")), args(&["connect", "10.0.0.1:5555"]));
    assert_eq!(connect_device_args(Some(" 10.0.0.1 ")), args(&["connect", " 10.0.0.1 :5555"]));
    assert_eq!(connect_device_args(Some("   ")), args(&["devices"]));
    assert_eq!(connect_device_args(Some("\u{3000}\t")), args(&["devices"]));
    assert_eq!(connect_device_args(None), args(&["devices"]));
}

#[test]
fn reads_wireless_address() {
    let out = "3: wlan0: <BROADCAST,MULTICAST,UP> mtu 1500\n    link/ether aa:bb:cc:dd:ee:ff\n    inet 192.168.1.10/24 brd 192.168.1.255 scope global wlan0\n    inet6 fe80::1/64 scope link\n";
    assert_eq!(parse_device_ip(out).unwrap(), "192.168.1.10");
    assert_eq!(parse_device_ip("inet 10.1.2.3\r\n").unwrap(), "10.1.2.3");
    assert_eq!(parse_device_ip("x\n\tinet  172.16.0.5/16\n inet 1.1.1.1/8").unwrap(), "172.16.0.5");
    assert_eq!(parse_device_ip("inet\ninet 8.8.8.8/32").unwrap(), "8.8.8.8");
}

#[test]
fn reports_missing_address() {
    let msg = "Could not find IP address for wlan0. Ensure device is connected via USB.";
    assert_eq!(parse_device_ip("").unwrap_err(), msg);
    assert_eq!(parse_device_ip("    inet6 fe80::1/64\n").unwrap_err(), msg);
    assert_eq!(parse_device_ip("inet \n").unwrap_err(), msg);
    assert_eq!(parse_device_ip("xinet 1.2.3.4/8\n").unwrap_err(), msg);
}

#[test]
fn auto_connect_decisions() {
    assert!(matches!(auto_connect_after_connect("connected to 1.2.3.4:5555"), AutoConnectNext::CheckDevices));
    assert!(matches!(auto_connect_after_connect("already connected to x"), AutoConnectNext::CheckDevices));
    match auto_connect_after_connect("  failed to connect to 1.2.3.4:5555\n") {
        AutoConnectNext::Fail(e) => assert_eq!(e, "Connection failed: failed to connect to 1.2.3.4:5555"),
        _ => panic!("expected a failure"),
    }
    let devices = "List of devices attached\n1.2.3.4:5555\tdevice\n";
    assert_eq!(
        auto_connect_after_devices("1.2.3.4", "1.2.3.4:5555", "connected to 1.2.3.4:5555", devices).unwrap(),
        "connected to 1.2.3.4:5555"
    );
    assert_eq!(
        auto_connect_after_devices("5.6.7.8", "5.6.7.8:5555", " connected to 5.6.7.8:5555 ", devices).unwrap_err(),
        "Connection failed: connected to 5.6.7.8:5555"
    );
}

#[test]
fn keep_awake_decisions() {
    assert!(!should_wake(&Ok("  mWakefulness=Awake\n".to_string())));
    assert!(should_wake(&Ok("mWakefulness=Asleep".to_string())));
    assert!(should_wake(&Err("device offline".to_string())));
    match keep_awake_after_status("", &Err("e".to_string()), false) {
        StatusDecision::Wake(a) => assert_eq!(a, args(&["shell", "input", "keyevent", "224"])),
        _ => panic!("expected a wakeup"),
    }
    assert!(matches!(
        keep_awake_after_status("", &Ok("mWakefulness=Awake".to_string()), false),
        StatusDecision::Skip(None)
    ));
    match keep_awake_after_status("", &Ok("mWakefulness=Awake".to_string()), true) {
        StatusDecision::Skip(Some(line)) => {
            assert_eq!(line.len(), 44);
            assert!(line.starts_with('['));
            assert!(line.ends_with("] Device is already awake, skipping"));
            assert_eq!(&line[3..4], ":");
        }
        _ => panic!("expected a logged skip"),
    }
}

#[test]
fn keep_awake_log_lines() {
    assert_eq!(format_log_line("12:34:56", "Sent wakeup event"), "[12:34:56] Sent wakeup event");
    assert_eq!(keep_awake_after_wakeup(&Ok(String::new()), false), None);
    let ok = keep_awake_after_wakeup(&Ok(String::new()), true).unwrap();
    assert!(ok.ends_with("] Sent wakeup event") && ok.len() == 28);
    let err = keep_awake_after_wakeup(&Err("closed".to_string()), true).unwrap();
    assert!(err.ends_with("] Wakeup error: closed"));
    let hms = &err[1..9];
    assert!(hms.chars().enumerate().all(|(i, c)| if i == 2 || i == 5 { c == ':' } else { c.is_ascii_digit() }));
    assert!(hms[0..2].parse::<u32>().unwrap() < 24);
}

#[test]
fn auto_dim_only_while_running() {
    assert!(auto_dim_when_due("1.2.3.4", false).is_none());
    let (line, a) = auto_dim_when_due("1.2.3.4", true).unwrap();
    assert!(line.ends_with("] Executing auto-dim..."));
    assert_eq!(a, args(&["-s", "1.2.3.4:5555", "shell", "settings", "put", "system", "screen_brightness", "1"]));
}

#[test]
fn text_helpers() {
    assert_eq!(trim_str("  Pixel 7\r\n"), "Pixel 7");
    assert_eq!(trim_str("\u{a0}\u{2003}x y\u{205f}"), "x y");
    assert_eq!(trim_str(" \t "), "");
    assert!(str_contains("abc", ""));
    assert!(str_contains("mWakefulness=Awake", "Awake"));
    assert!(!str_contains("Awak", "Awake"));
    assert_eq!(join_from(&args(&["a", "b", "c"]), 1), "b c");
    assert_eq!(join_from(&args(&["a"]), 1), "");
}

#[test]
fn fixed_argument_lists() {
    assert_eq!(fixed_command_args(FixedCommand::EnableTcpip), args(&["tcpip", "5555"]));
    assert_eq!(fixed_command_args(FixedCommand::UsbMode), args(&["usb"]));
    assert_eq!(fixed_command_args(FixedCommand::DisconnectAll), args(&["disconnect"]));
    assert_eq!(fixed_command_args(FixedCommand::DeviceIp), args(&["shell", "ip", "addr", "show", "wlan0"]));
    assert_eq!(fixed_command_args(FixedCommand::DeviceModel), args(&["shell", "getprop", "ro.product.model"]));
    assert_eq!(fixed_command_args(FixedCommand::CheckConnection), args(&["devices"]));
    assert_eq!(fixed_command_args(FixedCommand::KillServer), args(&["kill-server"]));
    assert_eq!(connect_to_args("1.2.3.4:5555"), args(&["connect", "1.2.3.4:5555"]));
    assert_eq!(host(route_adb_command(&fixed_command_args(FixedCommand::KillServer))), "host:kill");
}

#[test]
fn keep_awake_cycle() {
    let (p, a) = keep_awake_step(KeepAwakePhase::Idle, "", false, KeepAwakeEvent::Tick { running: false });
    assert_eq!(p, KeepAwakePhase::Idle);
    assert!(matches!(a, KeepAwakeAction::Stop));
    let (p, a) = keep_awake_step(KeepAwakePhase::Idle, "10.0.0.1", false, KeepAwakeEvent::Tick { running: true });
    assert_eq!(p, KeepAwakePhase::Checking);
    match a {
        KeepAwakeAction::TickThenRun(v) => assert_eq!(v, args(&["-s", "10.0.0.1:5555", "shell", "dumpsys", "power"])),
        other => panic!("expected the power query, got {:?}", other),
    }
    let (p, a) = keep_awake_step(p, "10.0.0.1", false, KeepAwakeEvent::Reply(Ok("mWakefulness=Asleep".to_string())));
    assert_eq!(p, KeepAwakePhase::Waking);
    match a {
        KeepAwakeAction::Run(v) => assert_eq!(v, args(&["-s", "10.0.0.1:5555", "shell", "input", "keyevent", "224"])),
        other => panic!("expected the wakeup, got {:?}", other),
    }
    let (p, a) = keep_awake_step(p, "10.0.0.1", true, KeepAwakeEvent::Reply(Err("gone".to_string())));
    assert_eq!(p, KeepAwakePhase::Idle);
    match a {
        KeepAwakeAction::Log(line) => assert!(line.ends_with("] Wakeup error: gone")),
        other => panic!("expected a log line, got {:?}", other),
    }
    let (p, a) = keep_awake_step(KeepAwakePhase::Checking, "", false, KeepAwakeEvent::Reply(Ok("mWakefulness=Awake".to_string())));
    assert_eq!(p, KeepAwakePhase::Idle);
    assert!(matches!(a, KeepAwakeAction::Continue));
}
