//! The ADB server's wire format: a request is its payload's length as at least
//! four lowercase hexadecimal digits, then the payload; the server answers with
//! a four-byte status (`OKAY` on success), and host services then send a
//! four-hex-digit length and that many bytes.
use vstd::prelude::*;
use vstd::utf8::*;

verus! {

// ---------------------------------------------------------------------------
// Hexadecimal length prefix (`format!("{:04x}", n)`)
// ---------------------------------------------------------------------------

/// The lowercase ASCII hex digit for `d` (`d < 16`).
pub open spec fn hex_digit(d: nat) -> u8 {
    if d < 10 {
        (48 + d) as u8
    } else {
        (87 + d) as u8
    }
}

/// `n` in lowercase hexadecimal, zero-padded to at least `width` digits
/// (what `format!("{:0width$x}", n)` writes).
pub open spec fn hex_text(n: nat, width: nat) -> Seq<u8>
    decreases n, width,
{
    if n < 16 && width <= 1 {
        seq![hex_digit(n)]
    } else {
        hex_text(
            n / 16,
            if width > 0 {
                (width - 1) as nat
            } else {
                0
            },
        ).push(hex_digit(n % 16))
    }
}

/// A request as the ADB server reads it: `{:04x}` of the payload's byte length, then the payload.
pub open spec fn request_frame(payload: Seq<u8>) -> Seq<u8> {
    hex_text(payload.len(), 4) + payload
}

fn hex_digit_byte(d: u8) -> (r: u8)
    requires
        d < 16,
    ensures
        r == hex_digit(d as nat),
{
    if d < 10 {
        48 + d
    } else {
        87 + d
    }
}

/// `n` in lowercase hexadecimal, zero-padded to at least `width` digits.
pub fn hex_padded(n: usize, width: usize) -> (r: Vec<u8>)
    ensures
        r@ == hex_text(n as nat, width as nat),
{
    let mut m = n;
    let mut w = width;
    let mut acc: Vec<u8> = Vec::new();
    while !(m < 16 && w <= 1)
        invariant
            hex_text(n as nat, width as nat) == hex_text(m as nat, w as nat) + acc@,
        decreases m + w,
    {
        let d = hex_digit_byte((m % 16) as u8);
        let ghost prev = acc@;
        let ghost w1: nat = if w > 0 {
            (w - 1) as nat
        } else {
            0
        };
        assert(hex_text(m as nat, w as nat) == hex_text((m / 16) as nat, w1).push(d));
        acc.insert(0, d);
        assert(hex_text((m / 16) as nat, w1).push(d) + prev =~= hex_text((m / 16) as nat, w1)
            + acc@);
        m = m / 16;
        w = if w > 0 {
            w - 1
        } else {
            0
        };
    }
    let d = hex_digit_byte(m as u8);
    let ghost prev = acc@;
    acc.insert(0, d);
    assert(seq![d] + prev =~= acc@);
    acc
}

/// The request the ADB server expects for `payload`: its UTF-8 byte length as
/// `{:04x}`, then its bytes.
pub fn encode_request(payload: &str) -> (r: Vec<u8>)
    ensures
        r@ == request_frame(encode_utf8(payload@)),
{
    let bytes = payload.as_bytes();
    let mut out = hex_padded(bytes.len(), 4);
    let ghost head = out@;
    let mut i: usize = 0;
    while i < bytes.len()
        invariant
            i <= bytes.len(),
            bytes@ == encode_utf8(payload@),
            head == hex_text(bytes@.len(), 4),
            out@ == head + bytes@.take(i as int),
        decreases bytes.len() - i,
    {
        out.push(bytes[i]);
        assert(bytes@.take(i + 1) =~= bytes@.take(i as int).push(bytes@[i as int]));
        i += 1;
    }
    assert(bytes@.take(bytes@.len() as int) =~= bytes@);
    out
}

// ---------------------------------------------------------------------------
// Status and length fields
// ---------------------------------------------------------------------------

/// The status the ADB server sends when it accepts a request: `OKAY`.
pub open spec fn okay_status() -> Seq<u8> {
    seq![79u8, 75u8, 65u8, 89u8]
}

/// Whether a status field reads `OKAY`.
pub fn is_okay(status: &[u8]) -> (r: bool)
    ensures
        r == (status@ == okay_status()),
{
    if status.len() != 4 {
        return false;
    }
    let r = status[0] == 79 && status[1] == 75 && status[2] == 65 && status[3] == 89;
    if r {
        assert(status@ =~= okay_status());
    }
    r
}

/// The value of an ASCII hex digit (either case), if `b` is one.
pub open spec fn hex_value(b: u8) -> Option<nat> {
    if 48 <= b <= 57 {
        Some((b - 48) as nat)
    } else if 97 <= b <= 102 {
        Some((b - 87) as nat)
    } else if 65 <= b <= 70 {
        Some((b - 55) as nat)
    } else {
        None
    }
}

/// The number that a run of hex digits spells, most significant first; `None`
/// when some byte is not a hex digit.
pub open spec fn digits_value(s: Seq<u8>) -> Option<nat>
    decreases s.len(),
{
    if s.len() == 0 {
        Some(0)
    } else {
        match (digits_value(s.drop_last()), hex_value(s.last())) {
            (Some(a), Some(d)) => Some(a * 16 + d),
            _ => None,
        }
    }
}

/// What `usize::from_str_radix(text, 16)` reads from `text` before any bound
/// check: an optional `+`, then at least one hex digit and nothing else.
pub open spec fn radix16_value(s: Seq<u8>) -> Option<nat> {
    if s.len() == 0 {
        None
    } else if s[0] == 43 {
        if s.len() == 1 {
            None
        } else {
            digits_value(s.drop_first())
        }
    } else {
        digits_value(s)
    }
}

/// The length an ADB length field announces: the field read as UTF-8 and then
/// as a base-16 `usize`, with 0 when either step fails.
pub open spec fn length_field(s: Seq<u8>) -> nat {
    match radix16_value(s) {
        Some(v) => if v <= usize::MAX {
            v
        } else {
            0
        },
        None => 0,
    }
}

proof fn lemma_digits_prefix(s: Seq<u8>, j: int)
    requires
        0 <= j <= s.len(),
        digits_value(s) is Some,
    ensures
        digits_value(s.take(j)) is Some,
        digits_value(s.take(j))->0 <= digits_value(s)->0,
    decreases s.len(),
{
    if j == s.len() {
        assert(s.take(j) =~= s);
    } else {
        lemma_digits_prefix(s.drop_last(), j);
        assert(s.drop_last().take(j) =~= s.take(j));
    }
}

fn hex_value_byte(b: u8) -> (r: Option<u8>)
    ensures
        match r {
            Some(d) => hex_value(b) == Some(d as nat) && d < 16,
            None => hex_value(b) is None,
        },
{
    if 48 <= b && b <= 57 {
        Some(b - 48)
    } else if 97 <= b && b <= 102 {
        Some(b - 87)
    } else if 65 <= b && b <= 70 {
        Some(b - 55)
    } else {
        None
    }
}

/// The length announced by an ADB length field; 0 when the field is not a
/// base-16 number that fits in `usize`.
pub fn parse_length_field(field: &[u8]) -> (r: usize)
    ensures
        r == length_field(field@),
{
    let n = field.len();
    if n == 0 {
        return 0;
    }
    let start: usize = if field[0] == 43 {
        1
    } else {
        0
    };
    if start == n {
        return 0;
    }
    let mut i = start;
    let mut acc: usize = 0;
    let mut overflow = false;
    assert(field@.subrange(start as int, start as int) =~= Seq::<u8>::empty());
    while i < n
        invariant
            n == field.len(),
            n > 0,
            start <= 1,
            start == 1 <==> field@[0] == 43,
            start <= i <= n,
            digits_value(field@.subrange(start as int, i as int)) is Some,
            !overflow ==> digits_value(field@.subrange(start as int, i as int))->0 == acc,
            overflow ==> digits_value(field@.subrange(start as int, i as int))->0 > usize::MAX,
        decreases n - i,
    {
        let ghost prefix = field@.subrange(start as int, i as int);
        assert(field@.subrange(start as int, i + 1).drop_last() =~= prefix);
        assert(field@.subrange(start as int, i + 1).last() == field@[i as int]);
        match hex_value_byte(field[i]) {
            None => {
                proof {
                    let whole = field@.subrange(start as int, n as int);
                    if digits_value(whole) is Some {
                        lemma_digits_prefix(whole, i + 1 - start);
                        assert(whole.take(i + 1 - start) =~= field@.subrange(start as int, i + 1));
                    }
                    assert(digits_value(whole) is None);
                    if start == 1 {
                        assert(field@.drop_first() =~= whole);
                    } else {
                        assert(field@ =~= whole);
                    }
                }
                return 0;
            },
            Some(d) => {
                if !overflow {
                    match acc.checked_mul(16) {
                        Some(m) => match m.checked_add(d as usize) {
                            Some(v) => {
                                acc = v;
                            },
                            None => {
                                overflow = true;
                            },
                        },
                        None => {
                            overflow = true;
                        },
                    }
                }
            },
        }
        i += 1;
    }
    let ghost whole = field@.subrange(start as int, n as int);
    proof {
        if start == 1 {
            assert(field@.drop_first() =~= whole);
        } else {
            assert(field@ =~= whole);
        }
    }
    if overflow {
        0
    } else {
        acc
    }
}

// ---------------------------------------------------------------------------
// Payload text
// ---------------------------------------------------------------------------

/// Name for the text that `String::from_utf8_lossy` makes of `bytes`.
pub uninterp spec fn utf8_lossy(bytes: Seq<u8>) -> Seq<char>;

/// Calls `String::from_utf8_lossy`: the bytes decoded as UTF-8, each invalid
/// sequence replaced by U+FFFD. The contract names the result and states only
/// the documented case where nothing is replaced: valid UTF-8 decodes as is.
#[verifier::external_body]
pub(crate) fn decode_lossy(bytes: &[u8]) -> (r: String)
    ensures
        r@ == utf8_lossy(bytes@),
        valid_utf8(bytes@) ==> r@ == decode_utf8(bytes@),
{
    String::from_utf8_lossy(bytes).into_owned()
}

// ---------------------------------------------------------------------------
// Laws of the framing
// ---------------------------------------------------------------------------

proof fn lemma_hex_digit_value(d: nat)
    requires
        d < 16,
    ensures
        hex_value(hex_digit(d)) == Some(d),
        hex_digit(d) != 43,
{
}

/// Every byte of `hex_text(n, w)` is a hex digit, its length is `w` when `n`
/// has at most `w` digits, and reading it back gives `n`.
pub proof fn lemma_hex_text_reads_back(n: nat, w: nat)
    ensures
        digits_value(hex_text(n, w)) == Some(n),
        hex_text(n, w).len() >= 1,
        forall|k: int| 0 <= k < hex_text(n, w).len() ==> hex_text(n, w)[k] != 43,
        1 <= w && n < pow16(w) ==> hex_text(n, w).len() == w,
    decreases n, w,
{
    if n < 16 && w <= 1 {
        lemma_hex_digit_value(n);
        assert(seq![hex_digit(n)].drop_last() =~= Seq::<u8>::empty());
        assert(digits_value(Seq::<u8>::empty()) == Some(0nat));
        reveal_with_fuel(pow16, 2);
    } else {
        let w1: nat = if w > 0 {
            (w - 1) as nat
        } else {
            0
        };
        lemma_hex_text_reads_back(n / 16, w1);
        lemma_hex_digit_value(n % 16);
        let t = hex_text(n / 16, w1);
        assert(t.push(hex_digit(n % 16)).drop_last() =~= t);
        assert(hex_text(n, w) == t.push(hex_digit(n % 16)));
        assert(digits_value(t.push(hex_digit(n % 16))) == Some((n / 16) * 16 + n % 16));
        if 1 <= w && n < pow16(w) {
            assert(w >= 2) by {
                if w == 1 {
                    reveal_with_fuel(pow16, 2);
                }
            }
            lemma_pow16_div(n, w);
        }
    }
}

/// `16^k`.
pub open spec fn pow16(k: nat) -> nat
    decreases k,
{
    if k == 0 {
        1
    } else {
        16 * pow16((k - 1) as nat)
    }
}

proof fn lemma_pow16_div(n: nat, w: nat)
    requires
        w >= 1,
        n < pow16(w),
    ensures
        n / 16 < pow16((w - 1) as nat),
{
    assert(pow16(w) == 16 * pow16((w - 1) as nat));
    assert(n / 16 < pow16((w - 1) as nat)) by (nonlinear_arith)
        requires
            n < 16 * pow16((w - 1) as nat),
    ;
}

/// A request frame carries its payload intact after a four-digit length field
/// that reads back as the payload's length, for every payload shorter than
/// 65536 bytes (longer ones get a wider length field).
pub proof fn law_request_frame_reads_back(payload: Seq<u8>)
    requires
        payload.len() < 0x10000,
    ensures
        request_frame(payload).len() == payload.len() + 4,
        length_field(request_frame(payload).take(4)) == payload.len(),
        request_frame(payload).skip(4) == payload,
{
    let h = hex_text(payload.len(), 4);
    reveal_with_fuel(pow16, 5);
    lemma_hex_text_reads_back(payload.len(), 4);
    assert(request_frame(payload).take(4) =~= h);
    assert(request_frame(payload).skip(4) =~= payload);
    assert(h[0] != 43);
}

} // verus!
