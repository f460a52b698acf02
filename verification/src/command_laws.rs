//! Properties of the commands' decisions, stated over the texts and argument
//! lists themselves.
use vstd::prelude::*;
use vstd::string::*;

use crate::commands::{
    auto_connect_outcome, dim_args, first_inet_address, keep_awake_next, route, serial_args,
    views, wake_needed, wakeup_args, formatted_address, KeepAwakeActionModel,
    KeepAwakeEventModel, KeepAwakePhase, RequestModel,
};
use crate::mic_drainer::device_keyword;
use crate::text::{
    before_char, contains_text, index_of_char, is_ws, join, lemma_index_of_char, lemma_word_len,
    occurs_at,
    split_ws, starts_with, trim, trim_end, trim_start, views_from, word_len,
};

verus! {

// ---------------------------------------------------------------------------
// Reading the wireless address
// ---------------------------------------------------------------------------

proof fn lemma_trim_end_keeps(s: Seq<char>, k: int)
    requires
        0 <= k < s.len(),
        !is_ws(s[k]),
    ensures
        exists|m: int| k < m <= s.len() && trim_end(s) == s.take(m),
    decreases s.len(),
{
    if s.len() > 0 && is_ws(s.last()) {
        let d = s.drop_last();
        lemma_trim_end_keeps(d, k);
        let m = choose|m: int| k < m <= d.len() && trim_end(d) == d.take(m);
        assert(d.take(m) =~= s.take(m));
    } else {
        assert(s.take(s.len() as int) =~= s);
    }
}

proof fn lemma_word_len_prefix(x: Seq<char>, y: Seq<char>)
    requires
        forall|k: int| 0 <= k < x.len() ==> !is_ws(#[trigger] x[k]),
    ensures
        word_len(x + y) == x.len() + word_len(y),
    decreases x.len(),
{
    if x.len() > 0 {
        assert((x + y).drop_first() =~= x.drop_first() + y);
        lemma_word_len_prefix(x.drop_first(), y);
    } else {
        assert(x + y =~= y);
    }
}

proof fn lemma_index_of_char_prefix(x: Seq<char>, y: Seq<char>, c: char)
    requires
        forall|k: int| 0 <= k < x.len() ==> #[trigger] x[k] != c,
    ensures
        index_of_char(x + y, c) == x.len() + index_of_char(y, c),
    decreases x.len(),
{
    if x.len() > 0 {
        assert((x + y).drop_first() =~= x.drop_first() + y);
        lemma_index_of_char_prefix(x.drop_first(), y, c);
    } else {
        assert(x + y =~= y);
    }
}

/// A line `inet A/P...` (with `A` a non-empty run of characters that are
/// neither whitespace nor `/`, and nothing after it on the line that breaks
/// the line) gives the address `A` exactly, whatever its length, and so does
/// any output that starts with that line.
pub proof fn law_inet_line_gives_its_address(a: Seq<char>, rest: Seq<char>, later: Seq<char>)
    requires
        a.len() > 0,
        forall|k: int| 0 <= k < a.len() ==> !is_ws(#[trigger] a[k]) && a[k] != '/' && a[k] != '\n',
        forall|k: int| 0 <= k < rest.len() ==> #[trigger] rest[k] != '\n',
    ensures
        first_inet_address("inet "@ + a + "/"@ + rest) == Some(a),
        first_inet_address("inet "@ + a + "/"@ + rest + "\n"@ + later) == Some(a),
{
    reveal_strlit("inet ");
    reveal_strlit("/");
    reveal_strlit("\n");
    assert("inet "@ =~= seq!['i', 'n', 'e', 't', ' ']);
    assert("/"@ =~= seq!['/']);
    assert("\n"@ =~= seq!['\n']);
    let head = "inet "@ + a + "/"@;
    let s = head + rest;
    let n: int = a.len() as int;
    assert(head.len() == n + 6);
    assert(head[n + 5] == '/');
    assert forall|k: int| 0 <= k < s.len() implies #[trigger] s[k] != '\n' by {
        if k >= n + 6 {
            assert(s[k] == rest[k - n - 6]);
        } else if 5 <= k < n + 5 {
            assert(s[k] == a[k - 5]);
        }
    }
    inet_line_of(s, a, rest);
    // The same line followed by more output.
    let s2 = s + "\n"@ + later;
    assert(s2 =~= s + ("\n"@ + later));
    assert(("\n"@ + later)[0] == '\n');
    lemma_index_of_char_prefix(s, "\n"@ + later, '\n');
    assert(index_of_char(s2, '\n') == s.len());
    assert(s2.take(s.len() as int) =~= s);
    lemma_index_of_char(s, '\n');
    assert(index_of_char(s, '\n') == s.len());
    assert(s.take(s.len() as int) =~= s);
}

proof fn inet_line_of(s: Seq<char>, a: Seq<char>, rest: Seq<char>)
    requires
        a.len() > 0,
        forall|k: int| 0 <= k < a.len() ==> !is_ws(#[trigger] a[k]) && a[k] != '/' && a[k] != '\n',
        s == "inet "@ + a + "/"@ + rest,
        "inet "@ == seq!['i', 'n', 'e', 't', ' '],
        "/"@ == seq!['/'],
    ensures
        crate::commands::inet_address_in(s) == Some(a),
{
    let n: int = a.len() as int;
    // trimming keeps the front and at least up to the `/`
    assert(!is_ws(s[0]));
    assert(trim_start(s) == s);
    assert(s[n + 5] == '/');
    lemma_trim_end_keeps(s, n + 5);
    let m = choose|m: int| n + 5 < m <= s.len() && trim_end(s) == s.take(m);
    let t = s.take(m);
    assert(trim(s) == t);
    assert(t.subrange(0, 5) =~= "inet "@);
    assert(starts_with(t, "inet "@));
    // the first word is `inet`
    let inet = seq!['i', 'n', 'e', 't'];
    assert(t =~= inet + t.skip(4));
    lemma_word_len_prefix(inet, t.skip(4));
    assert(t.skip(4)[0] == ' ');
    assert(word_len(t.skip(4)) == 0);
    assert(split_ws(t) == seq![t.take(4)] + split_ws(t.skip(4)));
    assert(t.skip(4).drop_first() =~= t.skip(5));
    assert(split_ws(t.skip(4)) == split_ws(t.skip(5)));
    // the second word starts with `A/`
    let u = t.skip(5);
    let a_slash = a + seq!['/'];
    assert(u =~= a_slash + u.skip(n + 1));
    assert forall|k: int| 0 <= k < a_slash.len() implies !is_ws(#[trigger] a_slash[k]) by {
        if k < n {
            assert(a_slash[k] == a[k]);
        }
    }
    lemma_word_len_prefix(a_slash, u.skip(n + 1));
    let w = word_len(u);
    lemma_word_len(u);
    assert(w >= n + 1);
    assert(!is_ws(u[0]));
    assert(split_ws(u) == seq![u.take(w as int)] + split_ws(u.skip(w as int)));
    assert(split_ws(t).len() > 1);
    assert(split_ws(t)[1] == u.take(w as int));
    // the address is what comes before the `/`
    let word = u.take(w as int);
    assert forall|k: int| 0 <= k < n implies word[k] == a[k] by {
        assert(u[k] == a_slash[k]);
    }
    assert(u[n] == a_slash[n]);
    assert(word[n] == '/');
    assert(word =~= a + (seq!['/'] + word.skip(n + 1)));
    lemma_index_of_char_prefix(a, seq!['/'] + word.skip(n + 1), '/');
    assert(index_of_char(seq!['/'] + word.skip(n + 1), '/') == 0);
    assert(before_char(word, '/') =~= a);
}

// ---------------------------------------------------------------------------
// Routing `-s <serial> shell ...`
// ---------------------------------------------------------------------------

/// `-s <serial> shell w1 ... wn` is routed to the shell of the device with
/// that serial, with every one of the words, joined by single spaces.
pub proof fn law_serial_shell_keeps_every_word(args: Seq<String>)
    requires
        args.len() >= 3,
        args[0]@ == "-s"@,
        args[2]@ == "shell"@,
    ensures
        route(args) == Ok::<RequestModel, Seq<char>>(
            RequestModel::Device(Some(args[1]@), "shell:"@ + join(views_from(args, 3), " "@)),
        ),
{
    literal_facts();
}

/// `shell w1 ... wn` is routed to the shell of any device with every one of
/// the words, joined by single spaces.
pub proof fn law_shell_keeps_every_word(args: Seq<String>)
    requires
        args.len() >= 1,
        args[0]@ == "shell"@,
    ensures
        route(args) == Ok::<RequestModel, Seq<char>>(
            RequestModel::Device(None, "shell:"@ + join(views_from(args, 1), " "@)),
        ),
{
    literal_facts();
}

proof fn literal_facts()
    ensures
        "devices"@.len() == 7 && "connect"@.len() == 7 && "disconnect"@.len() == 10,
        "usb"@.len() == 3 && "-s"@.len() == 2 && "kill-server"@.len() == 11,
        "shell"@.len() == 5 && "shell"@[0] == 's' && "tcpip"@[0] == 't',
        "-s"@[0] == '-' && "tcpip"@.len() == 5,
{
    reveal_strlit("-s");
    reveal_strlit("shell");
    reveal_strlit("devices");
    reveal_strlit("connect");
    reveal_strlit("disconnect");
    reveal_strlit("tcpip");
    reveal_strlit("usb");
    reveal_strlit("kill-server");
}

/// An argument list for the device at `ip` made of `shell` and more words is
/// routed to the shell of that device (any device when `ip` is empty).
proof fn lemma_serial_list_routes(ip: Seq<char>, words: Seq<Seq<char>>, args: Seq<String>)
    requires
        views(args) == serial_args(ip) + seq!["shell"@] + words,
    ensures
        route(args) == Ok::<RequestModel, Seq<char>>(
            RequestModel::Device(
                if ip.len() == 0 {
                    None
                } else {
                    Some(formatted_address(ip))
                },
                "shell:"@ + join(words, " "@),
            ),
        ),
{
    let k: int = if ip.len() == 0 {
        0
    } else {
        2
    };
    let all = serial_args(ip) + seq!["shell"@] + words;
    assert(args.len() == k + 1 + words.len()) by {
        assert(views(args).len() == args.len());
    }
    assert forall|i: int| 0 <= i < args.len() implies args[i]@ == all[i] by {
        assert(views(args)[i] == args[i]@);
    }
    assert forall|i: int| 0 <= i < words.len() implies views_from(args, k + 1)[i] == words[i] by {
        assert(all[k + 1 + i] == words[i]);
        assert(args.skip(k + 1)[i] == args[k + 1 + i]);
    }
    assert(views_from(args, k + 1) =~= words);
    if ip.len() == 0 {
        assert(serial_args(ip) =~= Seq::<Seq<char>>::empty());
        assert(all[0] == "shell"@);
        law_shell_keeps_every_word(args);
    } else {
        assert(all[0] == "-s"@);
        assert(all[1] == formatted_address(ip));
        assert(all[2] == "shell"@);
        law_serial_shell_keeps_every_word(args);
    }
}

/// The wakeup list is routed to `shell:input keyevent 224`, and the dimming
/// list to `shell:settings put system screen_brightness 1`, on the configured
/// device (any device when no address is configured).
pub proof fn law_wakeup_and_dim_route_to_their_shell_commands(
    ip: Seq<char>,
    wake: Seq<String>,
    dim: Seq<String>,
)
    requires
        views(wake) == wakeup_args(ip),
        views(dim) == dim_args(ip),
    ensures
        route(wake) == Ok::<RequestModel, Seq<char>>(
            RequestModel::Device(
                if ip.len() == 0 {
                    None
                } else {
                    Some(formatted_address(ip))
                },
                "shell:input keyevent 224"@,
            ),
        ),
        route(dim) == Ok::<RequestModel, Seq<char>>(
            RequestModel::Device(
                if ip.len() == 0 {
                    None
                } else {
                    Some(formatted_address(ip))
                },
                "shell:settings put system screen_brightness 1"@,
            ),
        ),
{
    reveal_strlit("shell:");
    reveal_strlit(" ");
    reveal_strlit("input");
    reveal_strlit("keyevent");
    reveal_strlit("224");
    reveal_strlit("settings");
    reveal_strlit("put");
    reveal_strlit("system");
    reveal_strlit("screen_brightness");
    reveal_strlit("1");
    reveal_strlit("shell:input keyevent 224");
    reveal_strlit("shell:settings put system screen_brightness 1");
    let ww = seq!["input"@, "keyevent"@, "224"@];
    assert(wakeup_args(ip) =~= serial_args(ip) + seq!["shell"@] + ww);
    lemma_serial_list_routes(ip, ww, wake);
    reveal_with_fuel(join, 4);
    assert(ww.drop_last() =~= seq!["input"@, "keyevent"@]);
    assert(ww.drop_last().drop_last() =~= seq!["input"@]);
    assert("shell:"@ + join(ww, " "@) =~= "shell:input keyevent 224"@);
    let dw = seq!["settings"@, "put"@, "system"@, "screen_brightness"@, "1"@];
    assert(dim_args(ip) =~= serial_args(ip) + seq!["shell"@] + dw);
    lemma_serial_list_routes(ip, dw, dim);
    reveal_with_fuel(join, 6);
    assert(dw.drop_last() =~= seq!["settings"@, "put"@, "system"@, "screen_brightness"@]);
    assert(dw.drop_last().drop_last() =~= seq!["settings"@, "put"@, "system"@]);
    assert(dw.drop_last().drop_last().drop_last() =~= seq!["settings"@, "put"@]);
    assert(dw.drop_last().drop_last().drop_last().drop_last() =~= seq!["settings"@]);
    assert("shell:"@ + join(dw, " "@) =~= "shell:settings put system screen_brightness 1"@);
}

// ---------------------------------------------------------------------------
// Keep-awake, auto-connect, the microphone keyword
// ---------------------------------------------------------------------------

/// A power-state reply asks for the wakeup event exactly when the text
/// `mWakefulness=Awake` occurs nowhere in it (any other state, such as
/// `Dozing` or `Asleep`, gets the wakeup), and a failed query always does;
/// keep-awake then sends the wakeup list.
pub proof fn law_wake_unless_reported_awake(
    out: Seq<char>,
    e: Seq<char>,
    ip: Seq<char>,
    debug: bool,
)
    ensures
        wake_needed(Ok(out)) <==> !(exists|i: int|
            0 <= i && i + "mWakefulness=Awake"@.len() <= out.len() && #[trigger] out.subrange(
                i,
                i + "mWakefulness=Awake"@.len(),
            ) == "mWakefulness=Awake"@),
        wake_needed(Err(e)),
        keep_awake_next(KeepAwakePhase::Checking, ip, debug, KeepAwakeEventModel::Reply(Ok(out)))
            == (KeepAwakePhase::Waking, KeepAwakeActionModel::Run(wakeup_args(ip))) <==> !(exists|
            i: int,
        |
            0 <= i && i + "mWakefulness=Awake"@.len() <= out.len() && #[trigger] out.subrange(
                i,
                i + "mWakefulness=Awake"@.len(),
            ) == "mWakefulness=Awake"@),
{
    let n = "mWakefulness=Awake"@;
    if contains_text(out, n) {
        let i = choose|i: int| occurs_at(out, n, i);
        assert(out.subrange(i, i + n.len()) == n);
    }
    if exists|i: int| 0 <= i && i + n.len() <= out.len() && #[trigger] out.subrange(i, i + n.len()) == n {
        let i = choose|i: int| 0 <= i && i + n.len() <= out.len() && #[trigger] out.subrange(i, i + n.len()) == n;
        assert(occurs_at(out, n, i));
    }
}

/// Auto-connect succeeds exactly when the device list names the address and
/// holds the word `device`; a list without `device` (an `offline` or
/// `unauthorized` entry) fails with the trimmed reply of `adb connect`.
pub proof fn law_auto_connect_needs_a_ready_device(
    ip: Seq<char>,
    address: Seq<char>,
    connect_output: Seq<char>,
    devices: Seq<char>,
)
    ensures
        auto_connect_outcome(ip, address, connect_output, devices) is Ok <==> (contains_text(
            devices,
            ip,
        ) && contains_text(devices, "device"@)),
        auto_connect_outcome(ip, address, connect_output, devices) is Ok ==> auto_connect_outcome(
            ip,
            address,
            connect_output,
            devices,
        ) == Ok::<Seq<char>, Seq<char>>("connected to "@ + address),
        !contains_text(devices, "device"@) ==> auto_connect_outcome(
            ip,
            address,
            connect_output,
            devices,
        ) == Err::<Seq<char>, Seq<char>>("Connection failed: "@ + trim(connect_output)),
{
}

/// The microphone keyword is exactly `picostreaming`: a lowercased name
/// matches only when it holds those thirteen characters in a row.
pub proof fn law_keyword_is_picostreaming(lowered: Seq<char>)
    ensures
        device_keyword() == "picostreaming"@,
        device_keyword().len() == 13,
        contains_text(lowered, device_keyword()) ==> lowered.len() >= 13,
{
    reveal_strlit("picostreaming");
    if contains_text(lowered, device_keyword()) {
        let i = choose|i: int| occurs_at(lowered, device_keyword(), i);
    }
}

} // verus!
