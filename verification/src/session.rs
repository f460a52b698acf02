//! The decisions of an exchange with the ADB server, as state machines: each
//! step takes the phase and what the last I/O gave, and says what to do next.
//! The caller performs the I/O (connect, write, read) and feeds the outcome back.
use vstd::prelude::*;
use vstd::string::*;
use vstd::utf8::*;

use crate::protocol::{decode_lossy, encode_request, is_okay, length_field, okay_status, parse_length_field, request_frame, utf8_lossy};

verus! {

// ---------------------------------------------------------------------------
// Events and actions
// ---------------------------------------------------------------------------

/// What the last I/O operation on the ADB socket gave.
#[derive(Debug)]
pub enum AdbIo {
    /// A write completed.
    Wrote,
    /// An exact read completed with these bytes.
    Read(Vec<u8>),
    /// Reading to the end of the stream completed with this text.
    ReadText(String),
    /// The operation failed with this message.
    Failed(String),
}

/// What to do next on the ADB socket.
#[derive(Debug)]
pub enum AdbStep {
    /// Write these bytes.
    Write(Vec<u8>),
    /// Read exactly this many bytes.
    ReadExact(usize),
    /// Read the rest of the stream as UTF-8 text.
    ReadToString,
    /// The exchange is over with this result.
    Finish(Result<String, String>),
}

/// Model of [`AdbIo`].
pub enum IoModel {
    Wrote,
    Read(Seq<u8>),
    ReadText(Seq<char>),
    Failed(Seq<char>),
}

/// Model of [`AdbStep`].
pub enum StepModel {
    Write(Seq<u8>),
    ReadExact(nat),
    ReadToString,
    Finish(Result<Seq<char>, Seq<char>>),
}

impl View for AdbIo {
    type V = IoModel;

    open spec fn view(&self) -> IoModel {
        match self {
            AdbIo::Wrote => IoModel::Wrote,
            AdbIo::Read(b) => IoModel::Read(b@),
            AdbIo::ReadText(t) => IoModel::ReadText(t@),
            AdbIo::Failed(e) => IoModel::Failed(e@),
        }
    }
}

impl View for AdbStep {
    type V = StepModel;

    open spec fn view(&self) -> StepModel {
        match self {
            AdbStep::Write(b) => StepModel::Write(b@),
            AdbStep::ReadExact(n) => StepModel::ReadExact(*n as nat),
            AdbStep::ReadToString => StepModel::ReadToString,
            AdbStep::Finish(Ok(t)) => StepModel::Finish(Ok(t@)),
            AdbStep::Finish(Err(e)) => StepModel::Finish(Err(e@)),
        }
    }
}

/// The error for an outcome that the current phase did not ask for.
pub open spec fn out_of_order() -> Seq<char> {
    "ADB exchange out of order"@
}

fn out_of_order_message() -> (r: String)
    ensures
        r@ == out_of_order(),
{
    String::from_str("ADB exchange out of order")
}

/// Ends the exchange with `e`.
pub open spec fn fail_with(e: Seq<char>) -> StepModel {
    StepModel::Finish(Err(e))
}

// ---------------------------------------------------------------------------
// Host services (`host:...`): request, status, length, payload
// ---------------------------------------------------------------------------

/// Where a host-service exchange stands.
#[derive(Debug, Clone, Copy, PartialEq, Eq, Structural)]
pub enum HostPhase {
    AwaitWrite,
    AwaitStatus,
    AwaitLength,
    AwaitPayload,
    Finished,
}

/// The error when the server refuses a host request.
pub open spec fn host_rejected() -> Seq<char> {
    "ADB server rejected request"@
}

/// The first step of a host-service exchange for `command`.
pub open spec fn host_begin(command: Seq<char>) -> (HostPhase, StepModel) {
    (HostPhase::AwaitWrite, StepModel::Write(request_frame(encode_utf8(command))))
}

/// The next phase and step of a host-service exchange after `ev`.
pub open spec fn host_next(phase: HostPhase, ev: IoModel) -> (HostPhase, StepModel) {
    match phase {
        HostPhase::AwaitWrite => match ev {
            IoModel::Wrote => (HostPhase::AwaitStatus, StepModel::ReadExact(4)),
            IoModel::Failed(e) => (HostPhase::Finished, fail_with(e)),
            _ => (HostPhase::Finished, fail_with(out_of_order())),
        },
        HostPhase::AwaitStatus => match ev {
            IoModel::Read(b) => if b == okay_status() {
                (HostPhase::AwaitLength, StepModel::ReadExact(4))
            } else {
                (HostPhase::Finished, fail_with(host_rejected()))
            },
            IoModel::Failed(e) => (HostPhase::Finished, fail_with(e)),
            _ => (HostPhase::Finished, fail_with(out_of_order())),
        },
        HostPhase::AwaitLength => match ev {
            IoModel::Read(b) => if length_field(b) > 0 {
                (HostPhase::AwaitPayload, StepModel::ReadExact(length_field(b)))
            } else {
                (HostPhase::Finished, StepModel::Finish(Ok(Seq::empty())))
            },
            IoModel::Failed(_) => (HostPhase::Finished, StepModel::Finish(Ok(Seq::empty()))),
            _ => (HostPhase::Finished, fail_with(out_of_order())),
        },
        HostPhase::AwaitPayload => match ev {
            IoModel::Read(b) => (HostPhase::Finished, StepModel::Finish(Ok(utf8_lossy(b)))),
            IoModel::Failed(e) => (HostPhase::Finished, fail_with(e)),
            _ => (HostPhase::Finished, fail_with(out_of_order())),
        },
        HostPhase::Finished => (HostPhase::Finished, fail_with(out_of_order())),
    }
}

/// Starts a host-service exchange: send `command` framed with its length.
pub fn host_start(command: &str) -> (r: (HostPhase, AdbStep))
    ensures
        (r.0, r.1@) == host_begin(command@),
{
    (HostPhase::AwaitWrite, AdbStep::Write(encode_request(command)))
}

/// One step of a host-service exchange; a payload that is valid UTF-8 comes
/// back as exactly the text it encodes.
pub fn host_step(phase: HostPhase, event: AdbIo) -> (r: (HostPhase, AdbStep))
    ensures
        (r.0, r.1@) == host_next(phase, event@),
        phase == HostPhase::AwaitPayload ==> (event@ matches IoModel::Read(b) ==> (valid_utf8(b)
            ==> r.1@ == StepModel::Finish(Ok(decode_utf8(b))))),
{
    match phase {
        HostPhase::AwaitWrite => match event {
            AdbIo::Wrote => (HostPhase::AwaitStatus, AdbStep::ReadExact(4)),
            AdbIo::Failed(e) => (HostPhase::Finished, AdbStep::Finish(Err(e))),
            _ => (HostPhase::Finished, AdbStep::Finish(Err(out_of_order_message()))),
        },
        HostPhase::AwaitStatus => match event {
            AdbIo::Read(b) => if is_okay(b.as_slice()) {
                (HostPhase::AwaitLength, AdbStep::ReadExact(4))
            } else {
                (
                    HostPhase::Finished,
                    AdbStep::Finish(Err(String::from_str("ADB server rejected request"))),
                )
            },
            AdbIo::Failed(e) => (HostPhase::Finished, AdbStep::Finish(Err(e))),
            _ => (HostPhase::Finished, AdbStep::Finish(Err(out_of_order_message()))),
        },
        HostPhase::AwaitLength => match event {
            AdbIo::Read(b) => {
                let n = parse_length_field(b.as_slice());
                if n > 0 {
                    (HostPhase::AwaitPayload, AdbStep::ReadExact(n))
                } else {
                    (HostPhase::Finished, AdbStep::Finish(Ok(String::new())))
                }
            },
            AdbIo::Failed(_) => (HostPhase::Finished, AdbStep::Finish(Ok(String::new()))),
            _ => (HostPhase::Finished, AdbStep::Finish(Err(out_of_order_message()))),
        },
        HostPhase::AwaitPayload => match event {
            AdbIo::Read(b) => (HostPhase::Finished, AdbStep::Finish(Ok(decode_lossy(b.as_slice())))),
            AdbIo::Failed(e) => (HostPhase::Finished, AdbStep::Finish(Err(e))),
            _ => (HostPhase::Finished, AdbStep::Finish(Err(out_of_order_message()))),
        },
        HostPhase::Finished => (HostPhase::Finished, AdbStep::Finish(Err(out_of_order_message()))),
    }
}

// ---------------------------------------------------------------------------
// Device services: transport request, then the service, then its output
// ---------------------------------------------------------------------------

/// Where a device-service exchange stands.
#[derive(Debug, Clone, Copy, PartialEq, Eq, Structural)]
pub enum DevicePhase {
    AwaitTransportWrite,
    AwaitTransportStatus,
    AwaitCommandWrite,
    AwaitCommandStatus,
    AwaitOutput,
    Finished,
}

/// The transport request: to the device with `serial`, or to any device.
pub open spec fn transport_request(serial: Option<Seq<char>>) -> Seq<char> {
    match serial {
        Some(s) => "host:transport:"@ + s,
        None => "host:transport-any"@,
    }
}

/// The error when the server refuses the transport request.
pub open spec fn transport_rejected() -> Seq<char> {
    "ADB server rejected transport. Is the device connected?"@
}

/// The error when the device refuses `command`.
pub open spec fn command_rejected(command: Seq<char>) -> Seq<char> {
    "ADB server rejected device command '"@ + command + "'"@
}

/// The view of an optional string.
pub open spec fn opt_view(o: Option<&str>) -> Option<Seq<char>> {
    match o {
        Some(s) => Some(s@),
        None => None,
    }
}

/// The first step of a device-service exchange.
pub open spec fn device_begin(serial: Option<Seq<char>>) -> (DevicePhase, StepModel) {
    (
        DevicePhase::AwaitTransportWrite,
        StepModel::Write(request_frame(encode_utf8(transport_request(serial)))),
    )
}

/// The next phase and step of a device-service exchange for `command` after `ev`.
pub open spec fn device_next(phase: DevicePhase, command: Seq<char>, ev: IoModel) -> (
    DevicePhase,
    StepModel,
) {
    match phase {
        DevicePhase::AwaitTransportWrite => match ev {
            IoModel::Wrote => (DevicePhase::AwaitTransportStatus, StepModel::ReadExact(4)),
            IoModel::Failed(e) => (DevicePhase::Finished, fail_with(e)),
            _ => (DevicePhase::Finished, fail_with(out_of_order())),
        },
        DevicePhase::AwaitTransportStatus => match ev {
            IoModel::Read(b) => if b == okay_status() {
                (
                    DevicePhase::AwaitCommandWrite,
                    StepModel::Write(request_frame(encode_utf8(command))),
                )
            } else {
                (DevicePhase::Finished, fail_with(transport_rejected()))
            },
            IoModel::Failed(e) => (DevicePhase::Finished, fail_with(e)),
            _ => (DevicePhase::Finished, fail_with(out_of_order())),
        },
        DevicePhase::AwaitCommandWrite => match ev {
            IoModel::Wrote => (DevicePhase::AwaitCommandStatus, StepModel::ReadExact(4)),
            IoModel::Failed(e) => (DevicePhase::Finished, fail_with(e)),
            _ => (DevicePhase::Finished, fail_with(out_of_order())),
        },
        DevicePhase::AwaitCommandStatus => match ev {
            IoModel::Read(b) => if b == okay_status() {
                (DevicePhase::AwaitOutput, StepModel::ReadToString)
            } else {
                (DevicePhase::Finished, fail_with(command_rejected(command)))
            },
            IoModel::Failed(e) => (DevicePhase::Finished, fail_with(e)),
            _ => (DevicePhase::Finished, fail_with(out_of_order())),
        },
        DevicePhase::AwaitOutput => match ev {
            IoModel::ReadText(t) => (DevicePhase::Finished, StepModel::Finish(Ok(t))),
            IoModel::Failed(e) => (DevicePhase::Finished, fail_with(e)),
            _ => (DevicePhase::Finished, fail_with(out_of_order())),
        },
        DevicePhase::Finished => (DevicePhase::Finished, fail_with(out_of_order())),
    }
}

fn transport_request_text(serial: Option<&str>) -> (r: String)
    ensures
        r@ == transport_request(opt_view(serial)),
{
    match serial {
        Some(s) => {
            let mut t = String::from_str("host:transport:");
            t.append(s);
            t
        },
        None => String::from_str("host:transport-any"),
    }
}

fn command_rejected_text(command: &str) -> (r: String)
    ensures
        r@ == command_rejected(command@),
{
    let mut t = String::from_str("ADB server rejected device command '");
    t.append(command);
    t.append("'");
    t
}

/// Starts a device-service exchange: ask for the transport to `serial` (or to any device).
pub fn device_start(serial: Option<&str>) -> (r: (DevicePhase, AdbStep))
    ensures
        (r.0, r.1@) == device_begin(opt_view(serial)),
{
    let req = transport_request_text(serial);
    (DevicePhase::AwaitTransportWrite, AdbStep::Write(encode_request(req.as_str())))
}

/// One step of a device-service exchange for `command`.
pub fn device_step(phase: DevicePhase, command: &str, event: AdbIo) -> (r: (
    DevicePhase,
    AdbStep,
))
    ensures
        (r.0, r.1@) == device_next(phase, command@, event@),
{
    match phase {
        DevicePhase::AwaitTransportWrite => match event {
            AdbIo::Wrote => (DevicePhase::AwaitTransportStatus, AdbStep::ReadExact(4)),
            AdbIo::Failed(e) => (DevicePhase::Finished, AdbStep::Finish(Err(e))),
            _ => (DevicePhase::Finished, AdbStep::Finish(Err(out_of_order_message()))),
        },
        DevicePhase::AwaitTransportStatus => match event {
            AdbIo::Read(b) => if is_okay(b.as_slice()) {
                (DevicePhase::AwaitCommandWrite, AdbStep::Write(encode_request(command)))
            } else {
                (
                    DevicePhase::Finished,
                    AdbStep::Finish(
                        Err(
                            String::from_str(
                                "ADB server rejected transport. Is the device connected?",
                            ),
                        ),
                    ),
                )
            },
            AdbIo::Failed(e) => (DevicePhase::Finished, AdbStep::Finish(Err(e))),
            _ => (DevicePhase::Finished, AdbStep::Finish(Err(out_of_order_message()))),
        },
        DevicePhase::AwaitCommandWrite => match event {
            AdbIo::Wrote => (DevicePhase::AwaitCommandStatus, AdbStep::ReadExact(4)),
            AdbIo::Failed(e) => (DevicePhase::Finished, AdbStep::Finish(Err(e))),
            _ => (DevicePhase::Finished, AdbStep::Finish(Err(out_of_order_message()))),
        },
        DevicePhase::AwaitCommandStatus => match event {
            AdbIo::Read(b) => if is_okay(b.as_slice()) {
                (DevicePhase::AwaitOutput, AdbStep::ReadToString)
            } else {
                (DevicePhase::Finished, AdbStep::Finish(Err(command_rejected_text(command))))
            },
            AdbIo::Failed(e) => (DevicePhase::Finished, AdbStep::Finish(Err(e))),
            _ => (DevicePhase::Finished, AdbStep::Finish(Err(out_of_order_message()))),
        },
        DevicePhase::AwaitOutput => match event {
            AdbIo::ReadText(t) => (DevicePhase::Finished, AdbStep::Finish(Ok(t))),
            AdbIo::Failed(e) => (DevicePhase::Finished, AdbStep::Finish(Err(e))),
            _ => (DevicePhase::Finished, AdbStep::Finish(Err(out_of_order_message()))),
        },
        DevicePhase::Finished => (
            DevicePhase::Finished,
            AdbStep::Finish(Err(out_of_order_message())),
        ),
    }
}

// ---------------------------------------------------------------------------
// Reaching the server: connect, else start it through the bundled adb and retry
// ---------------------------------------------------------------------------

/// Where the attempt to reach the ADB server stands.
#[derive(Debug, Clone, Copy, PartialEq, Eq, Structural)]
pub enum ConnectPhase {
    FirstAttempt,
    ResolvingSidecar,
    StartingServer,
    SecondAttempt,
    Finished,
}

/// What the last connection step gave.
#[derive(Debug, Clone, Copy, PartialEq, Eq, Structural)]
pub enum ConnectEvent {
    /// The TCP connection to the server was made within the time limit.
    Connected,
    /// It failed or timed out.
    ConnectFailed,
    /// The bundled `adb` program was found.
    SidecarReady,
    /// It was not.
    SidecarMissing,
    /// `adb start-server` ran (whatever it reported).
    ServerStartDone,
}

/// What to do next to reach the server.
#[derive(Debug, Clone, Copy, PartialEq, Eq, Structural)]
pub enum ConnectAction {
    /// Connect to the server, with the time limit.
    TryConnect,
    /// Look up the bundled `adb` program.
    ResolveSidecar,
    /// Run `adb start-server`.
    RunStartServer,
    /// Use the connection; `started_by_us` says the server was started here.
    Ready { started_by_us: bool },
    /// Give up with the connection error.
    GiveUp,
}

/// The error when the server can be neither reached nor started.
pub open spec fn connect_failure() -> Seq<char> {
    "Failed to connect to ADB server and failed to start it."@
}

/// The message of [`ConnectAction::GiveUp`].
pub fn connect_failure_message() -> (r: String)
    ensures
        r@ == connect_failure(),
{
    String::from_str("Failed to connect to ADB server and failed to start it.")
}

/// The first step: try to connect.
pub open spec fn connect_begin() -> (ConnectPhase, ConnectAction) {
    (ConnectPhase::FirstAttempt, ConnectAction::TryConnect)
}

/// The next phase and action after `ev`; starting the server is tried only
/// when an application handle is there to run the bundled `adb`.
pub open spec fn connect_next(phase: ConnectPhase, has_app: bool, ev: ConnectEvent) -> (
    ConnectPhase,
    ConnectAction,
) {
    match (phase, ev) {
        (ConnectPhase::FirstAttempt, ConnectEvent::Connected) => (
            ConnectPhase::Finished,
            ConnectAction::Ready { started_by_us: false },
        ),
        (ConnectPhase::FirstAttempt, ConnectEvent::ConnectFailed) => if has_app {
            (ConnectPhase::ResolvingSidecar, ConnectAction::ResolveSidecar)
        } else {
            (ConnectPhase::Finished, ConnectAction::GiveUp)
        },
        (ConnectPhase::ResolvingSidecar, ConnectEvent::SidecarReady) => (
            ConnectPhase::StartingServer,
            ConnectAction::RunStartServer,
        ),
        (ConnectPhase::StartingServer, ConnectEvent::ServerStartDone) => (
            ConnectPhase::SecondAttempt,
            ConnectAction::TryConnect,
        ),
        (ConnectPhase::SecondAttempt, ConnectEvent::Connected) => (
            ConnectPhase::Finished,
            ConnectAction::Ready { started_by_us: true },
        ),
        _ => (ConnectPhase::Finished, ConnectAction::GiveUp),
    }
}

/// Starts reaching the server.
pub fn connect_start() -> (r: (ConnectPhase, ConnectAction))
    ensures
        r == connect_begin(),
{
    (ConnectPhase::FirstAttempt, ConnectAction::TryConnect)
}

/// One step of reaching the server.
pub fn connect_step(phase: ConnectPhase, has_app: bool, event: ConnectEvent) -> (r: (
    ConnectPhase,
    ConnectAction,
))
    ensures
        r == connect_next(phase, has_app, event),
{
    match (phase, event) {
        (ConnectPhase::FirstAttempt, ConnectEvent::Connected) => (
            ConnectPhase::Finished,
            ConnectAction::Ready { started_by_us: false },
        ),
        (ConnectPhase::FirstAttempt, ConnectEvent::ConnectFailed) => if has_app {
            (ConnectPhase::ResolvingSidecar, ConnectAction::ResolveSidecar)
        } else {
            (ConnectPhase::Finished, ConnectAction::GiveUp)
        },
        (ConnectPhase::ResolvingSidecar, ConnectEvent::SidecarReady) => (
            ConnectPhase::StartingServer,
            ConnectAction::RunStartServer,
        ),
        (ConnectPhase::StartingServer, ConnectEvent::ServerStartDone) => (
            ConnectPhase::SecondAttempt,
            ConnectAction::TryConnect,
        ),
        (ConnectPhase::SecondAttempt, ConnectEvent::Connected) => (
            ConnectPhase::Finished,
            ConnectAction::Ready { started_by_us: true },
        ),
        _ => (ConnectPhase::Finished, ConnectAction::GiveUp),
    }
}

} // verus!
