//! Properties that span several of the library's functions.
use vstd::prelude::*;
use vstd::utf8::*;

use crate::commands::{
    connect_args, formatted_address, keep_awake_next, route, status_args, views, wake_needed,
    wakeup_args, wakeup_message, KeepAwakeActionModel, KeepAwakeEventModel, KeepAwakePhase,
    RequestModel,
};
use crate::text::{join, views_from};
use crate::mic_drainer::{device_keyword, magnitude, peak_level, peak_magnitude};
use crate::protocol::{length_field, okay_status, request_frame, utf8_lossy};
use crate::session::{
    connect_next, device_begin, device_next, host_begin, host_next, host_rejected, transport_request,
    ConnectAction, ConnectEvent, ConnectPhase, DevicePhase, HostPhase, IoModel, StepModel,
};
use crate::state::{with_running, AppState};
use crate::text::{contains_text, occurs_at, trim};
use vstd::string::*;

verus! {

/// A host request that the server accepts, and answers with a non-zero length
/// and a payload, ends with the payload as `String::from_utf8_lossy` decodes it
/// (`host_step` states that valid UTF-8 comes back exactly); the request
/// written first is the command's frame.
pub proof fn law_host_exchange_returns_payload(
    command: Seq<char>,
    length: Seq<u8>,
    payload: Seq<u8>,
)
    requires
        length_field(length) > 0,
    ensures
        ({
            let (p1, s1) = host_begin(command);
            let (p2, s2) = host_next(p1, IoModel::Wrote);
            let (p3, s3) = host_next(p2, IoModel::Read(okay_status()));
            let (p4, s4) = host_next(p3, IoModel::Read(length));
            let (p5, s5) = host_next(p4, IoModel::Read(payload));
            &&& s1 == StepModel::Write(request_frame(encode_utf8(command)))
            &&& s2 == StepModel::ReadExact(4)
            &&& s3 == StepModel::ReadExact(4)
            &&& s4 == StepModel::ReadExact(length_field(length))
            &&& s5 == StepModel::Finish(Ok(utf8_lossy(payload)))
            &&& p5 == HostPhase::Finished
        }),
{
}

/// A host request whose status is anything but `OKAY` ends with the rejection
/// error, and one whose length field is zero, unreadable or missing ends with
/// an empty answer.
pub proof fn law_host_status_and_empty_answer(status: Seq<u8>, length: Seq<u8>, e: Seq<char>)
    ensures
        status != okay_status() ==> host_next(HostPhase::AwaitStatus, IoModel::Read(status)) == (
            HostPhase::Finished,
            StepModel::Finish(Err(host_rejected())),
        ),
        length_field(length) == 0 ==> host_next(HostPhase::AwaitLength, IoModel::Read(length))
            == (HostPhase::Finished, StepModel::Finish(Ok(Seq::<char>::empty()))),
        host_next(HostPhase::AwaitLength, IoModel::Failed(e)) == (
            HostPhase::Finished,
            StepModel::Finish(Ok(Seq::<char>::empty())),
        ),
{
}

/// A device request accepted at both the transport and the command step
/// returns the device's output unchanged; the second write is the command's frame.
pub proof fn law_device_exchange_returns_output(
    serial: Option<Seq<char>>,
    command: Seq<char>,
    output: Seq<char>,
)
    ensures
        ({
            let (p1, s1) = device_begin(serial);
            let (p2, s2) = device_next(p1, command, IoModel::Wrote);
            let (p3, s3) = device_next(p2, command, IoModel::Read(okay_status()));
            let (p4, s4) = device_next(p3, command, IoModel::Wrote);
            let (p5, s5) = device_next(p4, command, IoModel::Read(okay_status()));
            let (p6, s6) = device_next(p5, command, IoModel::ReadText(output));
            &&& s1 == StepModel::Write(request_frame(encode_utf8(transport_request(serial))))
            &&& s2 == StepModel::ReadExact(4)
            &&& s3 == StepModel::Write(request_frame(encode_utf8(command)))
            &&& s4 == StepModel::ReadExact(4)
            &&& s5 == StepModel::ReadToString
            &&& s6 == StepModel::Finish(Ok(output))
            &&& p6 == DevicePhase::Finished
        }),
{
}

/// Every exchange ends: once finished, it stays finished, and any failed I/O
/// ends it (with the failure's message, except an unreadable length field,
/// which means an empty answer).
pub proof fn law_exchanges_end(hp: HostPhase, dp: DevicePhase, command: Seq<char>, ev: IoModel, e: Seq<char>)
    ensures
        host_next(HostPhase::Finished, ev).0 == HostPhase::Finished,
        device_next(DevicePhase::Finished, command, ev).0 == DevicePhase::Finished,
        host_next(hp, IoModel::Failed(e)).0 == HostPhase::Finished,
        device_next(dp, command, IoModel::Failed(e)).0 == DevicePhase::Finished,
        dp != DevicePhase::Finished ==> device_next(dp, command, IoModel::Failed(e)).1
            == StepModel::Finish(Err(e)),
        hp != HostPhase::Finished && hp != HostPhase::AwaitLength ==> host_next(
            hp,
            IoModel::Failed(e),
        ).1 == StepModel::Finish(Err(e)),
{
}

/// The server counts as started by this program exactly when it was reached
/// on the second attempt, after `adb start-server`; without an application
/// handle a failed first attempt gives up at once.
pub proof fn law_server_marked_only_after_start(phase: ConnectPhase, has_app: bool, ev: ConnectEvent)
    ensures
        connect_next(phase, has_app, ev).1 == (ConnectAction::Ready { started_by_us: true }) <==> (
        phase == ConnectPhase::SecondAttempt && ev == ConnectEvent::Connected),
        !has_app ==> connect_next(ConnectPhase::FirstAttempt, has_app, ConnectEvent::ConnectFailed)
            == (ConnectPhase::Finished, ConnectAction::GiveUp),
        connect_next(phase, has_app, ev).1 is RunStartServer ==> has_app || phase
            != ConnectPhase::FirstAttempt,
{
}

/// Starting keep-awake and then stopping it leaves the flags as they were, and
/// each of the two is refused (leaving the flags unchanged) in the state the
/// other one leaves.
pub proof fn law_keep_awake_start_stop(s: AppState)
    ensures
        !s.is_running ==> with_running(with_running(s, true), false) == s,
        s.is_running ==> with_running(s, true) == s,
        !s.is_running ==> with_running(s, false) == s,
{
}

/// An address that already has a port is kept, so formatting twice is
/// formatting once; a blank or missing address makes the connect command
/// list the devices instead.
pub proof fn law_address_formatting(ip: Seq<char>)
    ensures
        formatted_address(formatted_address(ip)) == formatted_address(ip),
        formatted_address(ip).contains(':'),
        trim(ip).len() == 0 ==> connect_args(Some(ip)) == seq!["devices"@],
        connect_args(None) == seq!["devices"@],
{
    reveal_strlit(":5555");
    if !ip.contains(':') {
        let f = ip + ":5555"@;
        assert(f[ip.len() as int] == ':');
    }
}

/// The peak of a block is the largest sample magnitude: no sample exceeds it,
/// some sample reaches it when there is one, and it is 0 for an empty block;
/// the level keeps it within `i16::MAX`, so level / `i16::MAX` lies in 0.0-1.0.
pub proof fn law_peak_is_largest_magnitude(s: Seq<i16>)
    ensures
        forall|i: int| 0 <= i < s.len() ==> magnitude(#[trigger] s[i]) <= peak_magnitude(s),
        s.len() > 0 ==> exists|i: int| 0 <= i < s.len() && magnitude(s[i]) == peak_magnitude(s),
        s.len() == 0 ==> peak_magnitude(s) == 0,
        peak_magnitude(s) <= 32768,
        peak_level(s) <= 32767,
        peak_magnitude(s) <= 32767 ==> peak_level(s) == peak_magnitude(s),
    decreases s.len(),
{
    if s.len() > 0 {
        let d = s.drop_last();
        law_peak_is_largest_magnitude(d);
        assert forall|i: int| 0 <= i < s.len() implies magnitude(#[trigger] s[i]) <= peak_magnitude(s) by {
            if i < s.len() - 1 {
                assert(s[i] == d[i]);
            }
        }
        if peak_magnitude(d) >= magnitude(s.last()) && d.len() > 0 {
            let j = choose|j: int| 0 <= j < d.len() && magnitude(d[j]) == peak_magnitude(d);
            assert(s[j] == d[j]);
        } else {
            assert(magnitude(s[s.len() - 1]) == peak_magnitude(s));
        }
    }
}

/// The argument list that keep-awake builds to query the power state is
/// routed to `shell:dumpsys power` on the configured device (any device when
/// no address is configured).
pub proof fn law_status_query_routes_to_device_shell(ip: Seq<char>, args: Seq<String>)
    requires
        views(args) == status_args(ip),
    ensures
        route(args) == Ok::<RequestModel, Seq<char>>(
            RequestModel::Device(
                if ip.len() == 0 {
                    None
                } else {
                    Some(formatted_address(ip))
                },
                "shell:dumpsys power"@,
            ),
        ),
{
    reveal_strlit("-s");
    reveal_strlit("shell");
    reveal_strlit("dumpsys");
    reveal_strlit("power");
    reveal_strlit("devices");
    reveal_strlit("connect");
    reveal_strlit("disconnect");
    reveal_strlit("tcpip");
    reveal_strlit("usb");
    reveal_strlit("kill-server");
    reveal_strlit(" ");
    reveal_strlit("shell:");
    reveal_strlit("shell:dumpsys power");
    reveal_strlit("dumpsys power");
    let k: int = if ip.len() == 0 { 0 } else { 2 };
    assert(args.len() == k + 3) by {
        assert(views(args).len() == args.len());
    }
    assert forall|i: int| 0 <= i < args.len() implies args[i]@ == status_args(ip)[i] by {
        assert(views(args)[i] == args[i]@);
    }
    let tail = views_from(args, k + 1);
    assert(status_args(ip)[k + 1] == "dumpsys"@);
    assert(status_args(ip)[k + 2] == "power"@);
    assert(tail.len() == 2);
    assert(tail[0] == args[k + 1]@);
    assert(tail[1] == args[k + 2]@);
    assert(tail =~= seq!["dumpsys"@, "power"@]);
    assert(join(tail, " "@) == join(tail.drop_last(), " "@) + " "@ + tail.last());
    assert(tail.drop_last() =~= seq!["dumpsys"@]);
    assert(join(tail.drop_last(), " "@) == "dumpsys"@);
    assert("dumpsys"@ + " "@ + "power"@ =~= "dumpsys power"@);
    assert(join(tail, " "@) =~= "dumpsys power"@);
    assert("shell:"@ + "dumpsys power"@ =~= "shell:dumpsys power"@);
    let a0 = args[0]@;
    assert("devices"@.len() == 7 && "connect"@.len() == 7 && "disconnect"@.len() == 10);
    assert("usb"@.len() == 3 && "-s"@.len() == 2 && "kill-server"@.len() == 11);
    assert("shell"@.len() == 5 && "shell"@[0] == 's' && "tcpip"@[0] == 't');
    assert("-s"@[0] == '-' && "tcpip"@.len() == 5);
    if ip.len() == 0 {
        assert(a0 == "shell"@);
        assert(a0 != "devices"@ && a0 != "connect"@ && a0 != "disconnect"@ && a0 != "tcpip"@
            && a0 != "usb"@);
        assert(route(args) == Ok::<RequestModel, Seq<char>>(
            RequestModel::Device(None, "shell:"@ + join(tail, " "@)),
        ));
    } else {
        assert(status_args(ip)[0] == "-s"@);
        assert(status_args(ip)[1] == formatted_address(ip));
        assert(status_args(ip)[2] == "shell"@);
        assert(a0 == "-s"@);
        assert(a0 != "devices"@ && a0 != "connect"@ && a0 != "disconnect"@ && a0 != "tcpip"@
            && a0 != "usb"@ && a0 != "shell"@ && a0 != "kill-server"@);
        assert(args[1]@ == formatted_address(ip));
        assert(args[2]@ == "shell"@);
        assert(route(args) == Ok::<RequestModel, Seq<char>>(
            RequestModel::Device(Some(formatted_address(ip)), "shell:"@ + join(tail, " "@)),
        ));
    }
}

/// Each keep-awake cycle that starts on a tick while running waits for the next
/// interval tick and sends the power-state query for the configured device, then the wakeup event exactly
/// when the query failed or did not report the device awake, and comes back to
/// waiting for the next tick (logging the outcome only in debug mode); a tick
/// while not running stops the loop.
pub proof fn law_keep_awake_cycle(
    ip: Seq<char>,
    debug: bool,
    status: Result<Seq<char>, Seq<char>>,
    wakeup: Result<Seq<char>, Seq<char>>,
)
    ensures
        keep_awake_next(KeepAwakePhase::Idle, ip, debug, KeepAwakeEventModel::Tick(false)).1
            is Stop,
        keep_awake_next(KeepAwakePhase::Idle, ip, debug, KeepAwakeEventModel::Tick(true)) == (
            KeepAwakePhase::Checking,
            KeepAwakeActionModel::TickThenRun(status_args(ip)),
        ),
        ({
            let (p, a) = keep_awake_next(
                KeepAwakePhase::Checking,
                ip,
                debug,
                KeepAwakeEventModel::Reply(status),
            );
            &&& wake_needed(status) ==> p == KeepAwakePhase::Waking && a
                == KeepAwakeActionModel::Run(wakeup_args(ip))
            &&& !wake_needed(status) ==> p == KeepAwakePhase::Idle && (a is Log <==> debug) && (!debug
                ==> a is Continue)
        }),
        ({
            let (p, a) = keep_awake_next(
                KeepAwakePhase::Waking,
                ip,
                debug,
                KeepAwakeEventModel::Reply(wakeup),
            );
            &&& p == KeepAwakePhase::Idle
            &&& debug ==> a == KeepAwakeActionModel::Log(wakeup_message(wakeup))
            &&& !debug ==> a is Continue
        }),
{
}

/// Text that contains a piece still contains it with anything added in front
/// or behind; so a lowercased name that matches the microphone keyword still
/// matches inside a longer lowercased name.
pub proof fn law_containment_survives_concatenation(x: Seq<char>, y: Seq<char>, needle: Seq<char>)
    ensures
        contains_text(x, needle) ==> contains_text(x + y, needle),
        contains_text(x, needle) ==> contains_text(y + x, needle),
        contains_text(x, device_keyword()) ==> contains_text(x + y, device_keyword())
            && contains_text(y + x, device_keyword()),
{
    if contains_text(x, needle) {
        let i = choose|i: int| occurs_at(x, needle, i);
        assert((x + y).subrange(i, i + needle.len()) =~= x.subrange(i, i + needle.len()));
        assert(occurs_at(x + y, needle, i));
        let j = i + y.len();
        assert((y + x).subrange(j, j + needle.len()) =~= x.subrange(i, i + needle.len()));
        assert(occurs_at(y + x, needle, j));
    }
    let k = device_keyword();
    if contains_text(x, k) {
        let i = choose|i: int| occurs_at(x, k, i);
        assert((x + y).subrange(i, i + k.len()) =~= x.subrange(i, i + k.len()));
        assert(occurs_at(x + y, k, i));
        let j = i + y.len();
        assert((y + x).subrange(j, j + k.len()) =~= x.subrange(i, i + k.len()));
        assert(occurs_at(y + x, k, j));
    }
}

} // verus!
