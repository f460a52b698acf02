//! The decisions behind the application's commands: which ADB service an
//! `adb`-style argument list asks for, the argument lists the commands build,
//! and what the commands make of the server's replies.
use vstd::prelude::*;
use vstd::string::*;

use crate::text::{
    chars_of, find_char, has_char, index_of_char, join, join_from, lemma_index_of_char,
    prefix_at, second_word, split_ws, starts_with, str_contains, text_eq, trim, trim_range,
    trim_str, views_from, before_char, contains_text,
};

verus! {

/// The views of a list of strings.
pub open spec fn views(v: Seq<String>) -> Seq<Seq<char>> {
    v.map_values(|s: String| s@)
}

// ---------------------------------------------------------------------------
// Routing an `adb` argument list to a server request
// ---------------------------------------------------------------------------

/// A request to the ADB server.
#[derive(Debug)]
pub enum AdbRequest {
    /// A host service, such as `host:devices`.
    Host(String),
    /// A service of a device: the one with `serial`, or any device.
    Device { serial: Option<String>, command: String },
}

/// Model of [`AdbRequest`].
pub enum RequestModel {
    Host(Seq<char>),
    Device(Option<Seq<char>>, Seq<char>),
}

impl View for AdbRequest {
    type V = RequestModel;

    open spec fn view(&self) -> RequestModel {
        match self {
            AdbRequest::Host(c) => RequestModel::Host(c@),
            AdbRequest::Device { serial: Some(s), command } => RequestModel::Device(
                Some(s@),
                command@,
            ),
            AdbRequest::Device { serial: None, command } => RequestModel::Device(None, command@),
        }
    }
}

/// The words of `args[from..]` joined with single spaces.
pub open spec fn tail_joined(args: Seq<String>, from: int) -> Seq<char> {
    join(views_from(args, from), " "@)
}

/// The request that an `adb` argument list stands for, or the error for a
/// list that the application does not handle.
pub open spec fn route(args: Seq<String>) -> Result<RequestModel, Seq<char>> {
    if args.len() == 0 {
        Err("No ADB command provided"@)
    } else {
        let a0 = args[0]@;
        if a0 == "devices"@ {
            Ok(RequestModel::Host("host:devices"@))
        } else if a0 == "connect"@ && args.len() > 1 {
            Ok(RequestModel::Host("host:connect:"@ + args[1]@))
        } else if a0 == "disconnect"@ {
            Ok(RequestModel::Host("host:disconnect:"@))
        } else if a0 == "tcpip"@ && args.len() > 1 {
            Ok(RequestModel::Device(None, "tcpip:"@ + args[1]@))
        } else if a0 == "usb"@ {
            Ok(RequestModel::Device(None, "usb:"@))
        } else if a0 == "shell"@ {
            Ok(RequestModel::Device(None, "shell:"@ + tail_joined(args, 1)))
        } else if a0 == "kill-server"@ {
            Ok(RequestModel::Host("host:kill"@))
        } else if a0 == "-s"@ && args.len() > 2 {
            let serial = args[1]@;
            let kind = args[2]@;
            if kind == "shell"@ {
                Ok(RequestModel::Device(Some(serial), "shell:"@ + tail_joined(args, 3)))
            } else if kind == "tcpip"@ && args.len() > 3 {
                Ok(RequestModel::Device(Some(serial), "tcpip:"@ + args[3]@))
            } else if kind == "usb"@ {
                Ok(RequestModel::Device(Some(serial), "usb:"@))
            } else {
                Err("Unsupported device command with -s: "@ + kind)
            }
        } else {
            Err("Unsupported ADB command in wrapper: "@ + a0)
        }
    }
}

fn prefixed(prefix: &str, rest: &str) -> (r: String)
    ensures
        r@ == prefix@ + rest@,
{
    let mut s = String::from_str(prefix);
    s.append(rest);
    s
}

/// The server request for an `adb` argument list (`devices`, `connect <addr>`,
/// `disconnect`, `tcpip <port>`, `usb`, `shell ...`, `kill-server`, and
/// `-s <serial>` with `shell ...`, `tcpip <port>` or `usb`).
pub fn route_adb_command(args: &[String]) -> (r: Result<AdbRequest, String>)
    ensures
        match (r, route(args@)) {
            (Ok(q), Ok(m)) => q@ == m,
            (Err(e), Err(m)) => e@ == m,
            _ => false,
        },
{
    if args.len() == 0 {
        return Err(String::from_str("No ADB command provided"));
    }
    let a0 = args[0].as_str();
    if text_eq(a0, "devices") {
        Ok(AdbRequest::Host(String::from_str("host:devices")))
    } else if text_eq(a0, "connect") && args.len() > 1 {
        Ok(AdbRequest::Host(prefixed("host:connect:", args[1].as_str())))
    } else if text_eq(a0, "disconnect") {
        Ok(AdbRequest::Host(String::from_str("host:disconnect:")))
    } else if text_eq(a0, "tcpip") && args.len() > 1 {
        Ok(AdbRequest::Device { serial: None, command: prefixed("tcpip:", args[1].as_str()) })
    } else if text_eq(a0, "usb") {
        Ok(AdbRequest::Device { serial: None, command: String::from_str("usb:") })
    } else if text_eq(a0, "shell") {
        let cmd = join_from(args, 1);
        Ok(AdbRequest::Device { serial: None, command: prefixed("shell:", cmd.as_str()) })
    } else if text_eq(a0, "kill-server") {
        Ok(AdbRequest::Host(String::from_str("host:kill")))
    } else if text_eq(a0, "-s") && args.len() > 2 {
        let serial = args[1].clone();
        let kind = args[2].as_str();
        if text_eq(kind, "shell") {
            let cmd = join_from(args, 3);
            Ok(
                AdbRequest::Device {
                    serial: Some(serial),
                    command: prefixed("shell:", cmd.as_str()),
                },
            )
        } else if text_eq(kind, "tcpip") && args.len() > 3 {
            Ok(
                AdbRequest::Device {
                    serial: Some(serial),
                    command: prefixed("tcpip:", args[3].as_str()),
                },
            )
        } else if text_eq(kind, "usb") {
            Ok(AdbRequest::Device { serial: Some(serial), command: String::from_str("usb:") })
        } else {
            Err(prefixed("Unsupported device command with -s: ", kind))
        }
    } else {
        Err(prefixed("Unsupported ADB command in wrapper: ", a0))
    }
}

// ---------------------------------------------------------------------------
// Addresses and argument lists
// ---------------------------------------------------------------------------

/// A device address with the wireless-debugging port: kept as is when it
/// already names a port (holds a `:`), else with `:5555` appended.
pub open spec fn formatted_address(ip: Seq<char>) -> Seq<char> {
    if ip.contains(':') {
        ip
    } else {
        ip + ":5555"@
    }
}

/// `ip`, with `:5555` appended unless it already holds a `:`.
pub fn format_ip_address(ip: &str) -> (r: String)
    ensures
        r@ == formatted_address(ip@),
{
    if has_char(ip, ':') {
        String::from_str(ip)
    } else {
        prefixed(ip, ":5555")
    }
}

/// The `-s <address>` arguments that pick the device at `ip`; none when `ip` is empty.
pub open spec fn serial_args(ip: Seq<char>) -> Seq<Seq<char>> {
    if ip.len() == 0 {
        seq![]
    } else {
        seq!["-s"@, formatted_address(ip)]
    }
}

/// The `-s <address>` arguments that pick the device at `ip`; empty when `ip` is empty.
pub fn get_device_serial_args(ip: &str) -> (r: Vec<String>)
    ensures
        views(r@) == serial_args(ip@),
{
    let mut v: Vec<String> = Vec::new();
    if !ip.is_empty() {
        v.push(String::from_str("-s"));
        v.push(format_ip_address(ip));
    }
    assert(views(v@) =~= serial_args(ip@));
    v
}

fn push_words(v: &mut Vec<String>, words: &[&str])
    ensures
        views(final(v)@) == views(old(v)@) + words@.map_values(|w: &str| w@),
{
    let ghost start = views(v@);
    let mut i: usize = 0;
    while i < words.len()
        invariant
            i <= words.len(),
            views(v@) == start + words@.take(i as int).map_values(|w: &str| w@),
        decreases words.len() - i,
    {
        let w = String::from_str(words[i]);
        let ghost before = v@;
        v.push(w);
        assert(views(v@) =~= views(before).push(words@[i as int]@));
        assert(words@.take(i + 1).map_values(|w: &str| w@) =~= words@.take(i as int).map_values(
            |w: &str| w@,
        ).push(words@[i as int]@));
        assert(views(v@) =~= start + words@.take(i + 1).map_values(|w: &str| w@));
        i += 1;
    }
    assert(words@.take(words@.len() as int) =~= words@);
}

/// The arguments for connecting: `connect <address>` when `ip` has a
/// non-blank value, else `devices` (list what is connected).
pub open spec fn connect_args(ip: Option<Seq<char>>) -> Seq<Seq<char>> {
    match ip {
        Some(s) => if trim(s).len() > 0 {
            seq!["connect"@, formatted_address(s)]
        } else {
            seq!["devices"@]
        },
        None => seq!["devices"@],
    }
}

/// The argument list of the connect command for an optional address.
pub fn connect_device_args(ip: Option<&str>) -> (r: Vec<String>)
    ensures
        views(r@) == connect_args(match ip {
            Some(s) => Some(s@),
            None => None,
        }),
{
    let mut v: Vec<String> = Vec::new();
    match ip {
        Some(s) => {
            let t = trim_str(s);
            if !t.as_str().is_empty() {
                v.push(String::from_str("connect"));
                v.push(format_ip_address(s));
            } else {
                v.push(String::from_str("devices"));
            }
        },
        None => {
            v.push(String::from_str("devices"));
        },
    }
    assert(views(v@) =~= connect_args(
        match ip {
            Some(s) => Some(s@),
            None => None,
        },
    ));
    v
}

/// A command of the application that sends a fixed `adb` argument list.
#[derive(Debug, Clone, Copy, PartialEq, Eq, Structural)]
pub enum FixedCommand {
    /// Switch the device to TCP/IP debugging on port 5555.
    EnableTcpip,
    /// Switch the device back to USB debugging.
    UsbMode,
    /// Disconnect every wireless device.
    DisconnectAll,
    /// Show the device's `wlan0` interface.
    DeviceIp,
    /// Read the device's model name.
    DeviceModel,
    /// List the connected devices.
    CheckConnection,
    /// Stop the ADB server.
    KillServer,
}

/// The argument list of a fixed command.
pub open spec fn fixed_args(c: FixedCommand) -> Seq<Seq<char>> {
    match c {
        FixedCommand::EnableTcpip => seq!["tcpip"@, "5555"@],
        FixedCommand::UsbMode => seq!["usb"@],
        FixedCommand::DisconnectAll => seq!["disconnect"@],
        FixedCommand::DeviceIp => seq!["shell"@, "ip"@, "addr"@, "show"@, "wlan0"@],
        FixedCommand::DeviceModel => seq!["shell"@, "getprop"@, "ro.product.model"@],
        FixedCommand::CheckConnection => seq!["devices"@],
        FixedCommand::KillServer => seq!["kill-server"@],
    }
}

/// The argument list of a fixed command.
pub fn fixed_command_args(c: FixedCommand) -> (r: Vec<String>)
    ensures
        views(r@) == fixed_args(c),
{
    let mut v: Vec<String> = Vec::new();
    assert(views(v@) =~= Seq::<Seq<char>>::empty());
    match c {
        FixedCommand::EnableTcpip => {
            let w: [&str; 2] = ["tcpip", "5555"];
            push_words(&mut v, &w);
            assert(w@.map_values(|x: &str| x@) =~= fixed_args(c));
        },
        FixedCommand::UsbMode => {
            let w: [&str; 1] = ["usb"];
            push_words(&mut v, &w);
            assert(w@.map_values(|x: &str| x@) =~= fixed_args(c));
        },
        FixedCommand::DisconnectAll => {
            let w: [&str; 1] = ["disconnect"];
            push_words(&mut v, &w);
            assert(w@.map_values(|x: &str| x@) =~= fixed_args(c));
        },
        FixedCommand::DeviceIp => {
            let w: [&str; 5] = ["shell", "ip", "addr", "show", "wlan0"];
            push_words(&mut v, &w);
            assert(w@.map_values(|x: &str| x@) =~= fixed_args(c));
        },
        FixedCommand::DeviceModel => {
            let w: [&str; 3] = ["shell", "getprop", "ro.product.model"];
            push_words(&mut v, &w);
            assert(w@.map_values(|x: &str| x@) =~= fixed_args(c));
        },
        FixedCommand::CheckConnection => {
            let w: [&str; 1] = ["devices"];
            push_words(&mut v, &w);
            assert(w@.map_values(|x: &str| x@) =~= fixed_args(c));
        },
        FixedCommand::KillServer => {
            let w: [&str; 1] = ["kill-server"];
            push_words(&mut v, &w);
            assert(w@.map_values(|x: &str| x@) =~= fixed_args(c));
        },
    }
    assert(views(v@) =~= fixed_args(c));
    v
}

/// The argument list that connects to `address` as it is: `connect <address>`.
pub fn connect_to_args(address: &str) -> (r: Vec<String>)
    ensures
        views(r@) == seq!["connect"@, address@],
{
    let mut v: Vec<String> = Vec::new();
    v.push(String::from_str("connect"));
    v.push(String::from_str(address));
    assert(views(v@) =~= seq!["connect"@, address@]);
    v
}

/// Arguments that ask the device at `ip` for its power state.
pub open spec fn status_args(ip: Seq<char>) -> Seq<Seq<char>> {
    serial_args(ip) + seq!["shell"@, "dumpsys"@, "power"@]
}

/// Arguments that send the wakeup key event (224) to the device at `ip`.
pub open spec fn wakeup_args(ip: Seq<char>) -> Seq<Seq<char>> {
    serial_args(ip) + seq!["shell"@, "input"@, "keyevent"@, "224"@]
}

/// Arguments that set the screen brightness of the device at `ip` to 1.
pub open spec fn dim_args(ip: Seq<char>) -> Seq<Seq<char>> {
    serial_args(ip) + seq![
        "shell"@,
        "settings"@,
        "put"@,
        "system"@,
        "screen_brightness"@,
        "1"@,
    ]
}

/// The argument list that asks for the power state of the device at `ip`.
pub fn keep_awake_status_args(ip: &str) -> (r: Vec<String>)
    ensures
        views(r@) == status_args(ip@),
{
    let mut v = get_device_serial_args(ip);
    let words: [&str; 3] = ["shell", "dumpsys", "power"];
    push_words(&mut v, &words);
    assert(words@.map_values(|w: &str| w@) =~= seq!["shell"@, "dumpsys"@, "power"@]);
    v
}

/// The argument list that wakes the device at `ip`.
pub fn keep_awake_wakeup_args(ip: &str) -> (r: Vec<String>)
    ensures
        views(r@) == wakeup_args(ip@),
{
    let mut v = get_device_serial_args(ip);
    let words: [&str; 4] = ["shell", "input", "keyevent", "224"];
    push_words(&mut v, &words);
    assert(words@.map_values(|w: &str| w@) =~= seq!["shell"@, "input"@, "keyevent"@, "224"@]);
    v
}

/// The argument list that dims the screen of the device at `ip`.
pub fn auto_dim_args(ip: &str) -> (r: Vec<String>)
    ensures
        views(r@) == dim_args(ip@),
{
    let mut v = get_device_serial_args(ip);
    let words: [&str; 6] = ["shell", "settings", "put", "system", "screen_brightness", "1"];
    push_words(&mut v, &words);
    assert(words@.map_values(|w: &str| w@) =~= seq![
        "shell"@,
        "settings"@,
        "put"@,
        "system"@,
        "screen_brightness"@,
        "1"@,
    ]);
    v
}

// ---------------------------------------------------------------------------
// Reading replies
// ---------------------------------------------------------------------------

/// The address in a line of `ip addr` output: the line, trimmed, starts with
/// `inet ` and has a second word, whose part before any `/` is the address.
pub open spec fn inet_address_in(line: Seq<char>) -> Option<Seq<char>> {
    let t = trim(line);
    if starts_with(t, "inet "@) && split_ws(t).len() > 1 {
        Some(before_char(split_ws(t)[1], '/'))
    } else {
        None
    }
}

/// The address in the first line of `s` that has one; lines end at `\n` (a
/// `\r` before it is whitespace and goes with the trimming).
pub open spec fn first_inet_address(s: Seq<char>) -> Option<Seq<char>>
    decreases s.len(),
{
    let k = index_of_char(s, '\n');
    match inet_address_in(s.take(k as int)) {
        Some(a) => Some(a),
        None => if k < s.len() {
            proof {
                lemma_index_of_char(s, '\n');
            }
            first_inet_address(s.skip(k + 1int))
        } else {
            None
        },
    }
}

/// The error when `ip addr show wlan0` output names no address.
pub open spec fn no_ip_error() -> Seq<char> {
    "Could not find IP address for wlan0. Ensure device is connected via USB."@
}

/// The device's wireless address, read from the output of `ip addr show wlan0`.
pub fn parse_device_ip(output: &str) -> (r: Result<String, String>)
    ensures
        match r {
            Ok(a) => first_inet_address(output@) == Some(a@),
            Err(e) => first_inet_address(output@) is None && e@ == no_ip_error(),
        },
{
    let v = chars_of(output);
    let inet = chars_of("inet ");
    let n = v.len();
    let mut pos: usize = 0;
    assert(v@.subrange(0, n as int) =~= v@);
    loop
        invariant
            v@ == output@,
            inet@ == "inet "@,
            n == v.len(),
            pos <= n,
            first_inet_address(output@) == first_inet_address(v@.subrange(pos as int, n as int)),
        decreases n - pos,
    {
        let ghost s = v@.subrange(pos as int, n as int);
        let k = find_char(&v, pos, n, '\n');
        proof {
            lemma_index_of_char(s, '\n');
            assert(s.take(k - pos) =~= v@.subrange(pos as int, k as int));
        }
        let (a, b) = trim_range(&v, pos, k);
        if prefix_at(&v, a, b, &inet) {
            match second_word(&v, a, b) {
                Some((c, d)) => {
                    let e = find_char(&v, c, d, '/');
                    proof {
                        let w = v@.subrange(c as int, d as int);
                        assert(w.take(e - c) =~= v@.subrange(c as int, e as int));
                    }
                    let addr = output.substring_char(c, e);
                    return Ok(String::from_str(addr));
                },
                None => {},
            }
        }
        if k == n {
            return Err(
                String::from_str(
                    "Could not find IP address for wlan0. Ensure device is connected via USB.",
                ),
            );
        }
        assert(s.skip(k - pos + 1) =~= v@.subrange(k + 1, n as int));
        pos = k + 1;
    }
}

// ---------------------------------------------------------------------------
// Auto-connect
// ---------------------------------------------------------------------------

/// The reply to `adb connect` says the device is (now or already) connected.
pub open spec fn connect_accepted(output: Seq<char>) -> bool {
    contains_text(output, "connected to"@) || contains_text(output, "already connected"@)
}

/// The error that reports a refused connection with the server's (trimmed) reply.
pub open spec fn connection_failed(output: Seq<char>) -> Seq<char> {
    "Connection failed: "@ + trim(output)
}

/// What auto-connect does after `adb connect` answered.
#[derive(Debug)]
pub enum AutoConnectNext {
    /// Confirm with `adb devices`.
    CheckDevices,
    /// Stop with this error.
    Fail(String),
}

/// After `adb connect <address>` answered `output`: confirm with `adb devices`
/// when the reply reports a connection, else fail with the reply.
pub fn auto_connect_after_connect(output: &str) -> (r: AutoConnectNext)
    ensures
        match r {
            AutoConnectNext::CheckDevices => connect_accepted(output@),
            AutoConnectNext::Fail(e) => !connect_accepted(output@) && e@ == connection_failed(
                output@,
            ),
        },
{
    if str_contains(output, "connected to") || str_contains(output, "already connected") {
        AutoConnectNext::CheckDevices
    } else {
        let t = trim_str(output);
        AutoConnectNext::Fail(prefixed("Connection failed: ", t.as_str()))
    }
}

/// The auto-connect result once `adb devices` answered `devices`: connected
/// when the list names `ip` and the word `device`, else the failed connect reply.
pub open spec fn auto_connect_outcome(
    ip: Seq<char>,
    address: Seq<char>,
    connect_output: Seq<char>,
    devices: Seq<char>,
) -> Result<Seq<char>, Seq<char>> {
    if contains_text(devices, ip) && contains_text(devices, "device"@) {
        Ok("connected to "@ + address)
    } else {
        Err(connection_failed(connect_output))
    }
}

/// The auto-connect result once `adb devices` answered `devices`.
pub fn auto_connect_after_devices(
    ip: &str,
    address: &str,
    connect_output: &str,
    devices: &str,
) -> (r: Result<String, String>)
    ensures
        match (r, auto_connect_outcome(ip@, address@, connect_output@, devices@)) {
            (Ok(a), Ok(m)) => a@ == m,
            (Err(a), Err(m)) => a@ == m,
            _ => false,
        },
        r is Ok <==> (contains_text(devices@, ip@) && contains_text(devices@, "device"@)),
        match r {
            Ok(a) => a@ == "connected to "@ + address@,
            Err(e) => e@ == "Connection failed: "@ + trim(connect_output@),
        },
{
    if str_contains(devices, ip) && str_contains(devices, "device") {
        Ok(prefixed("connected to ", address))
    } else {
        let t = trim_str(connect_output);
        Err(prefixed("Connection failed: ", t.as_str()))
    }
}

// ---------------------------------------------------------------------------
// Keep-awake
// ---------------------------------------------------------------------------

/// The device should get a wakeup event: the power-state query failed, or its
/// output does not report `mWakefulness=Awake`.
pub open spec fn wake_needed(status: Result<Seq<char>, Seq<char>>) -> bool {
    match status {
        Ok(out) => !contains_text(out, "mWakefulness=Awake"@),
        Err(_) => true,
    }
}

/// The view of a string result.
pub open spec fn result_view(r: Result<String, String>) -> Result<Seq<char>, Seq<char>> {
    match r {
        Ok(s) => Ok(s@),
        Err(e) => Err(e@),
    }
}

/// Whether to send a wakeup event, given the power-state query's result.
pub fn should_wake(status: &Result<String, String>) -> (r: bool)
    ensures
        r == wake_needed(result_view(*status)),
        match status {
            Ok(out) => r == !contains_text(out@, "mWakefulness=Awake"@),
            Err(_) => r,
        },
{
    match status {
        Ok(out) => !str_contains(out.as_str(), "mWakefulness=Awake"),
        Err(_) => true,
    }
}

/// A debug-log line: the time in brackets, a space, then the message.
pub open spec fn log_line(time: Seq<char>, message: Seq<char>) -> Seq<char> {
    "["@ + time + "] "@ + message
}

/// The debug-log line for `message` at `time`.
pub fn format_log_line(time: &str, message: &str) -> (r: String)
    ensures
        r@ == log_line(time@, message@),
{
    let mut s = String::from_str("[");
    s.append(time);
    s.append("] ");
    s.append(message);
    s
}

/// `t` is a wall-clock time as `HH:MM:SS` (hour 00-23, minute 00-59, second
/// 00-60, the last for a leap second).
pub open spec fn is_clock_text(t: Seq<char>) -> bool {
    &&& t.len() == 8
    &&& t[2] == ':' && t[5] == ':'
    &&& forall|k: int| 0 <= k < 8 && k != 2 && k != 5 ==> '0' <= #[trigger] t[k] <= '9'
    &&& (t[0] as int - 48) * 10 + (t[1] as int - 48) <= 23
    &&& (t[3] as int - 48) * 10 + (t[4] as int - 48) <= 59
    &&& (t[6] as int - 48) * 10 + (t[7] as int - 48) <= 60
}

/// Calls `chrono::DateTime::<chrono::Local>::from(SystemTime::now())` and
/// formats it with `"%H:%M:%S"`: the local time of day. The conversion from
/// `SystemTime` also takes clock readings before 1970 (where `Local::now`
/// would panic). The contract states what chrono documents of the format:
/// two-digit hour (00-23), minute (00-59) and second (00-60) separated by
/// colons; which time it is depends on the clock and is not stated.
#[verifier::external_body]
fn local_clock_text() -> (r: String)
    ensures
        is_clock_text(r@),
{
    let now = chrono::DateTime::<chrono::Local>::from(std::time::SystemTime::now());
    now.format("%H:%M:%S").to_string()
}

/// What keep-awake does once the power-state query answered.
#[derive(Debug)]
pub enum StatusDecision {
    /// Send the wakeup event with these arguments.
    Wake(Vec<String>),
    /// The device is awake; log this line when debug logging is on.
    Skip(Option<String>),
}

/// After the power-state query for the device at `ip`: wake the device when
/// [`wake_needed`] holds, else skip, with a timestamped log line in debug mode.
pub fn keep_awake_after_status(ip: &str, status: &Result<String, String>, debug: bool) -> (r:
    StatusDecision)
    ensures
        match r {
            StatusDecision::Wake(args) => wake_needed(result_view(*status)) && views(args@)
                == wakeup_args(ip@),
            StatusDecision::Skip(None) => !wake_needed(result_view(*status)) && !debug,
            StatusDecision::Skip(Some(line)) => !wake_needed(result_view(*status)) && debug
                && exists|t: Seq<char>|
                is_clock_text(t) && line@ == log_line(t, "Device is already awake, skipping"@),
        },
{
    if should_wake(status) {
        StatusDecision::Wake(keep_awake_wakeup_args(ip))
    } else if debug {
        let t = local_clock_text();
        StatusDecision::Skip(Some(format_log_line(t.as_str(), "Device is already awake, skipping")))
    } else {
        StatusDecision::Skip(None)
    }
}

/// The debug message for the result of a wakeup event.
pub open spec fn wakeup_message(result: Result<Seq<char>, Seq<char>>) -> Seq<char> {
    match result {
        Ok(_) => "Sent wakeup event"@,
        Err(e) => "Wakeup error: "@ + e,
    }
}

/// After the wakeup event was sent: in debug mode, a timestamped line that
/// reports its result; nothing otherwise.
pub fn keep_awake_after_wakeup(result: &Result<String, String>, debug: bool) -> (r: Option<
    String,
>)
    ensures
        match r {
            None => !debug,
            Some(line) => debug && exists|t: Seq<char>|
                is_clock_text(t) && line@ == log_line(t, wakeup_message(result_view(*result))),
        },
{
    if !debug {
        return None;
    }
    let t = local_clock_text();
    match result {
        Ok(_) => Some(format_log_line(t.as_str(), "Sent wakeup event")),
        Err(e) => {
            let msg = prefixed("Wakeup error: ", e.as_str());
            Some(format_log_line(t.as_str(), msg.as_str()))
        },
    }
}

/// When the dimming delay is over: if keep-awake still runs, a timestamped
/// log line and the arguments that dim the device at `ip`; else nothing.
pub fn auto_dim_when_due(ip: &str, still_running: bool) -> (r: Option<(String, Vec<String>)>)
    ensures
        match r {
            None => !still_running,
            Some((line, args)) => still_running && views(args@) == dim_args(ip@) && exists|
                t: Seq<char>,
            | is_clock_text(t) && line@ == log_line(t, "Executing auto-dim..."@),
        },
{
    if !still_running {
        return None;
    }
    let t = local_clock_text();
    Some((format_log_line(t.as_str(), "Executing auto-dim..."), auto_dim_args(ip)))
}

/// Where the keep-awake task stands in its cycle.
#[derive(Debug, Clone, Copy, PartialEq, Eq, Structural)]
pub enum KeepAwakePhase {
    /// Waiting for the next tick.
    Idle,
    /// The power-state query was sent.
    Checking,
    /// The wakeup event was sent.
    Waking,
}

/// What the keep-awake task observed.
#[derive(Debug)]
pub enum KeepAwakeEvent {
    /// The loop is about to wait for the next tick; `running` is the keep-awake flag.
    Tick { running: bool },
    /// The last `adb` command answered.
    Reply(Result<String, String>),
}

/// What the keep-awake task does next.
#[derive(Debug)]
pub enum KeepAwakeAction {
    /// Leave the loop.
    Stop,
    /// Wait for the next tick, then run this `adb` argument list.
    TickThenRun(Vec<String>),
    /// Run this `adb` argument list now.
    Run(Vec<String>),
    /// Send this debug-log line, then go on with the next tick.
    Log(String),
    /// Go on with the next tick.
    Continue,
}

/// Model of [`KeepAwakeEvent`].
pub enum KeepAwakeEventModel {
    Tick(bool),
    Reply(Result<Seq<char>, Seq<char>>),
}

/// Model of [`KeepAwakeAction`]; a log is given by its message, without the time.
pub enum KeepAwakeActionModel {
    Stop,
    TickThenRun(Seq<Seq<char>>),
    Run(Seq<Seq<char>>),
    Log(Seq<char>),
    Continue,
}

impl View for KeepAwakeEvent {
    type V = KeepAwakeEventModel;

    open spec fn view(&self) -> KeepAwakeEventModel {
        match self {
            KeepAwakeEvent::Tick { running } => KeepAwakeEventModel::Tick(*running),
            KeepAwakeEvent::Reply(r) => KeepAwakeEventModel::Reply(result_view(*r)),
        }
    }
}

/// `a` carries what `m` says; a log line is `m`'s message stamped with some clock time.
pub open spec fn keep_awake_action_is(a: KeepAwakeAction, m: KeepAwakeActionModel) -> bool {
    match (a, m) {
        (KeepAwakeAction::Stop, KeepAwakeActionModel::Stop) => true,
        (KeepAwakeAction::TickThenRun(v), KeepAwakeActionModel::TickThenRun(args)) => views(v@)
            == args,
        (KeepAwakeAction::Run(v), KeepAwakeActionModel::Run(args)) => views(v@) == args,
        (KeepAwakeAction::Log(line), KeepAwakeActionModel::Log(msg)) => exists|t: Seq<char>|
            is_clock_text(t) && line@ == log_line(t, msg),
        (KeepAwakeAction::Continue, KeepAwakeActionModel::Continue) => true,
        _ => false,
    }
}

/// The keep-awake cycle for the device at `ip`: on a tick while running, wait
/// for the next interval tick and query the power state; on its reply, wake the device when [`wake_needed`] holds,
/// else log the skip in debug mode; on the wakeup's reply, log its result in
/// debug mode; a tick while not running stops the loop. Events that do not fit
/// the phase change nothing.
pub open spec fn keep_awake_next(
    phase: KeepAwakePhase,
    ip: Seq<char>,
    debug: bool,
    ev: KeepAwakeEventModel,
) -> (KeepAwakePhase, KeepAwakeActionModel) {
    match ev {
        KeepAwakeEventModel::Tick(running) => if !running {
            (phase, KeepAwakeActionModel::Stop)
        } else if phase == KeepAwakePhase::Idle {
            (KeepAwakePhase::Checking, KeepAwakeActionModel::TickThenRun(status_args(ip)))
        } else {
            (phase, KeepAwakeActionModel::Continue)
        },
        KeepAwakeEventModel::Reply(r) => match phase {
            KeepAwakePhase::Checking => if wake_needed(r) {
                (KeepAwakePhase::Waking, KeepAwakeActionModel::Run(wakeup_args(ip)))
            } else if debug {
                (
                    KeepAwakePhase::Idle,
                    KeepAwakeActionModel::Log("Device is already awake, skipping"@),
                )
            } else {
                (KeepAwakePhase::Idle, KeepAwakeActionModel::Continue)
            },
            KeepAwakePhase::Waking => if debug {
                (KeepAwakePhase::Idle, KeepAwakeActionModel::Log(wakeup_message(r)))
            } else {
                (KeepAwakePhase::Idle, KeepAwakeActionModel::Continue)
            },
            KeepAwakePhase::Idle => (KeepAwakePhase::Idle, KeepAwakeActionModel::Continue),
        },
    }
}

/// One step of the keep-awake task for the device at `ip`; `debug` is the
/// debug-mode flag as it stands now.
pub fn keep_awake_step(phase: KeepAwakePhase, ip: &str, debug: bool, event: KeepAwakeEvent) -> (r: (
    KeepAwakePhase,
    KeepAwakeAction,
))
    ensures
        r.0 == keep_awake_next(phase, ip@, debug, event@).0,
        keep_awake_action_is(r.1, keep_awake_next(phase, ip@, debug, event@).1),
{
    match event {
        KeepAwakeEvent::Tick { running } => {
            if !running {
                (phase, KeepAwakeAction::Stop)
            } else if phase == KeepAwakePhase::Idle {
                (
                    KeepAwakePhase::Checking,
                    KeepAwakeAction::TickThenRun(keep_awake_status_args(ip)),
                )
            } else {
                (phase, KeepAwakeAction::Continue)
            }
        },
        KeepAwakeEvent::Reply(reply) => match phase {
            KeepAwakePhase::Checking => match keep_awake_after_status(ip, &reply, debug) {
                StatusDecision::Wake(args) => (KeepAwakePhase::Waking, KeepAwakeAction::Run(args)),
                StatusDecision::Skip(Some(line)) => (KeepAwakePhase::Idle, KeepAwakeAction::Log(line)),
                StatusDecision::Skip(None) => (KeepAwakePhase::Idle, KeepAwakeAction::Continue),
            },
            KeepAwakePhase::Waking => match keep_awake_after_wakeup(&reply, debug) {
                Some(line) => (KeepAwakePhase::Idle, KeepAwakeAction::Log(line)),
                None => (KeepAwakePhase::Idle, KeepAwakeAction::Continue),
            },
            KeepAwakePhase::Idle => (KeepAwakePhase::Idle, KeepAwakeAction::Continue),
        },
    }
}

} // verus!
