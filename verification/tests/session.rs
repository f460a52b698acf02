use pico4u::session::{
    connect_failure_message, connect_start, connect_step, device_start, device_step, host_start,
    host_step, AdbIo, AdbStep, ConnectAction, ConnectEvent, ConnectPhase, DevicePhase, HostPhase,
};
use pico4u::state::AppState;

fn write_bytes(s: &AdbStep) -> Vec<u8> {
    match s {
        AdbStep::Write(b) => b.clone(),
        other => panic!("expected a write, got {:?}", other),
    }
}

fn finish(s: AdbStep) -> Result<String, String> {
    match s {
        AdbStep::Finish(r) => r,
        other => panic!("expected the end, got {:?}", other),
    }
}

#[test]
fn host_exchange_returns_payload() {
    let (p, s) = host_start("host:devices");
    assert_eq!(write_bytes(&s), b"000chost:devices".to_vec());
    let (p, s) = host_step(p, AdbIo::Wrote);
    assert!(matches!(s, AdbStep::ReadExact(4)));
    let (p, s) = host_step(p, AdbIo::Read(b"OKAY".to_vec()));
    assert!(matches!(s, AdbStep::ReadExact(4)));
    let (p, s) = host_step(p, AdbIo::Read(b"0016".to_vec()));
    assert!(matches!(s, AdbStep::ReadExact(22)));
    let (p, s) = host_step(p, AdbIo::Read(b"emulator-5554\tdevice\n\n".to_vec()));
    assert_eq!(p, HostPhase::Finished);
    assert_eq!(finish(s).unwrap(), "emulator-5554\tdevice\n\n");
}

#[test]
fn host_payload_is_decoded_lossily() {
    let (p, s) = host_step(HostPhase::AwaitPayload, AdbIo::Read(vec![b'a', 0xff, b'b']));
    assert_eq!(p, HostPhase::Finished);
    assert_eq!(finish(s).unwrap(), "a\u{fffd}b");
}

#[test]
fn host_rejections_and_empty_answers() {
    let (_, s) = host_step(HostPhase::AwaitStatus, AdbIo::Read(b"FAIL".to_vec()));
    assert_eq!(finish(s).unwrap_err(), "ADB server rejected request");
    let (_, s) = host_step(HostPhase::AwaitStatus, AdbIo::Failed("early eof".to_string()));
    assert_eq!(finish(s).unwrap_err(), "early eof");
    let (_, s) = host_step(HostPhase::AwaitLength, AdbIo::Failed("early eof".to_string()));
    assert_eq!(finish(s).unwrap(), "");
    let (_, s) = host_step(HostPhase::AwaitLength, AdbIo::Read(b"0000".to_vec()));
    assert_eq!(finish(s).unwrap(), "");
    let (_, s) = host_step(HostPhase::AwaitLength, AdbIo::Read(b"zzzz".to_vec()));
    assert_eq!(finish(s).unwrap(), "");
    let (_, s) = host_step(HostPhase::AwaitWrite, AdbIo::Failed("broken pipe".to_string()));
    assert_eq!(finish(s).unwrap_err(), "broken pipe");
    let (_, s) = host_step(HostPhase::Finished, AdbIo::Wrote);
    assert_eq!(finish(s).unwrap_err(), "ADB exchange out of order");
}

#[test]
fn device_exchange_returns_output() {
    let (p, s) = device_start(Some("1.2.3.4:5555"));
    assert_eq!(write_bytes(&s), b"001bhost:transport:1.2.3.4:5555".to_vec());
    let (p, s) = device_step(p, "shell:getprop ro.product.model", AdbIo::Wrote);
    assert!(matches!(s, AdbStep::ReadExact(4)));
    let (p, s) = device_step(p, "shell:getprop ro.product.model", AdbIo::Read(b"OKAY".to_vec()));
    assert_eq!(write_bytes(&s), b"001eshell:getprop ro.product.model".to_vec());
    let (p, s) = device_step(p, "shell:getprop ro.product.model", AdbIo::Wrote);
    assert!(matches!(s, AdbStep::ReadExact(4)));
    let (p, s) = device_step(p, "shell:getprop ro.product.model", AdbIo::Read(b"OKAY".to_vec()));
    assert!(matches!(s, AdbStep::ReadToString));
    let (p, s) = device_step(p, "shell:getprop ro.product.model", AdbIo::ReadText("Pico 4\n".to_string()));
    assert_eq!(p, DevicePhase::Finished);
    assert_eq!(finish(s).unwrap(), "Pico 4\n");
}

#[test]
fn device_rejections() {
    let (_, s) = device_start(None);
    assert_eq!(write_bytes(&s), b"0012host:transport-any".to_vec());
    let (_, s) = device_step(DevicePhase::AwaitTransportStatus, "usb:", AdbIo::Read(b"FAIL".to_vec()));
    assert_eq!(finish(s).unwrap_err(), "ADB server rejected transport. Is the device connected?");
    let (_, s) = device_step(DevicePhase::AwaitCommandStatus, "usb:", AdbIo::Read(b"FAIL".to_vec()));
    assert_eq!(finish(s).unwrap_err(), "ADB server rejected device command 'usb:'");
    let (_, s) = device_step(DevicePhase::AwaitOutput, "usb:", AdbIo::Failed("invalid utf-8".to_string()));
    assert_eq!(finish(s).unwrap_err(), "invalid utf-8");
}

#[test]
fn reaching_the_server() {
    assert_eq!(connect_start(), (ConnectPhase::FirstAttempt, ConnectAction::TryConnect));
    assert_eq!(
        connect_step(ConnectPhase::FirstAttempt, true, ConnectEvent::Connected),
        (ConnectPhase::Finished, ConnectAction::Ready { started_by_us: false })
    );
    assert_eq!(
        connect_step(ConnectPhase::FirstAttempt, false, ConnectEvent::ConnectFailed),
        (ConnectPhase::Finished, ConnectAction::GiveUp)
    );
    let (p, a) = connect_step(ConnectPhase::FirstAttempt, true, ConnectEvent::ConnectFailed);
    assert_eq!(a, ConnectAction::ResolveSidecar);
    let (p, a) = connect_step(p, true, ConnectEvent::SidecarReady);
    assert_eq!(a, ConnectAction::RunStartServer);
    let (p, a) = connect_step(p, true, ConnectEvent::ServerStartDone);
    assert_eq!(a, ConnectAction::TryConnect);
    assert_eq!(connect_step(p, true, ConnectEvent::Connected).1, ConnectAction::Ready { started_by_us: true });
    assert_eq!(connect_step(p, true, ConnectEvent::ConnectFailed).1, ConnectAction::GiveUp);
    assert_eq!(
        connect_step(ConnectPhase::ResolvingSidecar, true, ConnectEvent::SidecarMissing).1,
        ConnectAction::GiveUp
    );
    assert_eq!(connect_failure_message(), "Failed to connect to ADB server and failed to start it.");
}

#[test]
fn keep_awake_flags() {
    let mut st = AppState::default();
    assert_eq!(st, AppState { is_running: false, debug_mode: false, adb_started_by_us: false, mic_drainer_enabled: false });
    assert_eq!(st.end_keep_awake().unwrap_err(), "Keep awake task is not running.");
    assert!(st.begin_keep_awake().is_ok());
    assert!(st.is_running);
    assert_eq!(st.begin_keep_awake().unwrap_err(), "Keep awake task is already running.");
    assert!(st.end_keep_awake().is_ok());
    assert_eq!(st, AppState::default());
    st.set_debug_mode(true);
    st.mark_adb_started_by_us();
    assert!(st.debug_mode && st.adb_started_by_us && !st.is_running);
}

#[test]
fn host_payload_valid_utf8_is_exact() {
    let (_, s) = host_step(HostPhase::AwaitPayload, AdbIo::Read("Pico 4 Ültra".as_bytes().to_vec()));
    assert_eq!(finish(s).unwrap(), "Pico 4 Ültra");
}
