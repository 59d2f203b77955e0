//! Text renderings of numbers, used by the debug renderings of requests and
//! replies.
use vstd::prelude::*;
use vstd::string::{StrSliceExecFns, StringExecFns};

verus! {

/// The text of one digit, `0`-`9` then `a`-`f`.
pub open spec fn digit_text(d: nat) -> Seq<char> {
    if d == 0 {
        "0"@
    } else if d == 1 {
        "1"@
    } else if d == 2 {
        "2"@
    } else if d == 3 {
        "3"@
    } else if d == 4 {
        "4"@
    } else if d == 5 {
        "5"@
    } else if d == 6 {
        "6"@
    } else if d == 7 {
        "7"@
    } else if d == 8 {
        "8"@
    } else if d == 9 {
        "9"@
    } else if d == 10 {
        "a"@
    } else if d == 11 {
        "b"@
    } else if d == 12 {
        "c"@
    } else if d == 13 {
        "d"@
    } else if d == 14 {
        "e"@
    } else {
        "f"@
    }
}

/// The digits of `n` in base `base`, most significant first, without leading
/// zeros (zero itself is `0`).
pub open spec fn digits(n: nat, base: nat) -> Seq<char>
    decreases n,
    via digits_decreases
{
    if base < 2 || n < base {
        digit_text(n)
    } else {
        digits(n / base, base) + digit_text(n % base)
    }
}

#[via_fn]
proof fn digits_decreases(n: nat, base: nat) {
    if !(base < 2 || n < base) {
        assert(n / base < n) by (nonlinear_arith)
            requires
                base >= 2,
                n >= base,
        ;
    }
}

/// The decimal text of `n`.
pub open spec fn decimal(n: nat) -> Seq<char> {
    digits(n, 10)
}

/// The lower-case hexadecimal text of `n`, with a `0x` prefix.
pub open spec fn hex(n: nat) -> Seq<char> {
    "0x"@ + digits(n, 16)
}

/// The text of a boolean.
pub open spec fn bool_text(b: bool) -> Seq<char> {
    if b {
        "true"@
    } else {
        "false"@
    }
}

fn digit_str(d: u64) -> (r: &'static str)
    requires
        d < 16,
    ensures
        r@ == digit_text(d as nat),
{
    if d == 0 {
        "0"
    } else if d == 1 {
        "1"
    } else if d == 2 {
        "2"
    } else if d == 3 {
        "3"
    } else if d == 4 {
        "4"
    } else if d == 5 {
        "5"
    } else if d == 6 {
        "6"
    } else if d == 7 {
        "7"
    } else if d == 8 {
        "8"
    } else if d == 9 {
        "9"
    } else if d == 10 {
        "a"
    } else if d == 11 {
        "b"
    } else if d == 12 {
        "c"
    } else if d == 13 {
        "d"
    } else if d == 14 {
        "e"
    } else {
        "f"
    }
}

/// Appends the digits of `n` in base `base`.
pub fn push_digits(out: &mut String, n: u64, base: u64)
    requires
        2 <= base <= 16,
    ensures
        final(out)@ == old(out)@ + digits(n as nat, base as nat),
    decreases n,
{
    if n < base {
        out.append(digit_str(n));
    } else {
        assert(n / base < n) by (nonlinear_arith)
            requires
                base >= 2,
                n >= base,
        ;
        push_digits(out, n / base, base);
        out.append(digit_str(n % base));
        assert(final(out)@ =~= old(out)@ + digits(n as nat, base as nat));
    }
}

/// Appends the decimal text of `n`.
pub fn push_decimal(out: &mut String, n: u64)
    ensures
        final(out)@ == old(out)@ + decimal(n as nat),
{
    push_digits(out, n, 10);
}

/// Appends the `0x`-prefixed hexadecimal text of `n`.
pub fn push_hex(out: &mut String, n: u64)
    ensures
        final(out)@ == old(out)@ + hex(n as nat),
{
    out.append("0x");
    push_digits(out, n, 16);
    assert(final(out)@ =~= old(out)@ + hex(n as nat));
}

/// Appends the text of `b`.
pub fn push_bool(out: &mut String, b: bool)
    ensures
        final(out)@ == old(out)@ + bool_text(b),
{
    if b {
        out.append("true");
    } else {
        out.append("false");
    }
}

/// `n` zero digits.
pub open spec fn zero_digits(n: nat) -> Seq<char> {
    Seq::new(n, |i: int| '0')
}

/// The lower-case hexadecimal text of `n` with a `0x` prefix, its digits
/// padded with zeros to at least `width`.
pub open spec fn hex_padded(n: nat, width: nat) -> Seq<char> {
    let d = digits(n, 16);
    "0x"@ + zero_digits(if d.len() < width {
        (width - d.len()) as nat
    } else {
        0
    }) + d
}

/// Appends the hexadecimal text of `n` padded to `width` digits.
pub fn push_hex_padded(out: &mut String, n: u64, width: usize)
    ensures
        final(out)@ == old(out)@ + hex_padded(n as nat, width as nat),
{
    let mut d = String::new();
    push_digits(&mut d, n, 16);
    let len = d.as_str().unicode_len();
    out.append("0x");
    let mut i: usize = len;
    let ghost base = out@;
    while i < width
        invariant
            len <= i,
            i <= width || i == len,
            len == digits(n as nat, 16).len(),
            out@ == base + zero_digits((i - len) as nat),
        decreases width - i,
    {
        out.append("0");
        proof {
            reveal_strlit("0");
        }
        i = i + 1;
        assert(zero_digits((i - len) as nat) =~= zero_digits((i - 1 - len) as nat) + "0"@);
    }
    assert(d@ =~= digits(n as nat, 16));
    out.append(d.as_str());
    assert(final(out)@ =~= old(out)@ + hex_padded(n as nat, width as nat));
}

/// The text of each byte inside a quoted string: printable ASCII as itself,
/// a quote and a backslash escaped with a backslash, any other byte as `\x`
/// and two hexadecimal digits.
pub open spec fn escape_byte(x: u8) -> Seq<u8> {
    if x == 34 || x == 92 {
        seq![92u8, x]
    } else if 32 <= x < 127 {
        seq![x]
    } else {
        seq![92u8, 120u8, hex_digit_byte(x / 16), hex_digit_byte(x % 16)]
    }
}

/// The ASCII byte of hexadecimal digit `d`.
pub open spec fn hex_digit_byte(d: u8) -> u8 {
    if d < 10 {
        (48 + d) as u8
    } else {
        (87 + d) as u8
    }
}

/// The escaped text of `b`, byte by byte.
pub open spec fn escape_bytes(b: Seq<u8>) -> Seq<u8>
    decreases b.len(),
{
    if b.len() == 0 {
        seq![]
    } else {
        escape_bytes(b.drop_last()) + escape_byte(b.last())
    }
}

/// The characters of an ASCII byte string.
pub open spec fn ascii_chars(b: Seq<u8>) -> Seq<char> {
    b.map_values(|x: u8| x as char)
}

/// The quoted rendering of a byte string.
pub open spec fn quoted(b: Seq<u8>) -> Seq<char> {
    "\""@ + ascii_chars(escape_bytes(b)) + "\""@
}

/// Relies on `std::str::from_utf8`: ASCII bytes are valid UTF-8 and each is
/// one character of the same value.
#[verifier::external_body]
fn ascii_to_string(b: &[u8]) -> (r: String)
    requires
        forall|i: int| 0 <= i < b@.len() ==> b@[i] < 128,
    ensures
        r@ == ascii_chars(b@),
{
    match std::str::from_utf8(b) {
        Ok(s) => s.to_string(),
        Err(_) => String::new(),
    }
}

/// Appends the quoted rendering of `b`.
pub fn push_quoted(out: &mut String, b: &[u8])
    ensures
        final(out)@ == old(out)@ + quoted(b@),
{
    let mut esc: Vec<u8> = Vec::new();
    let mut i: usize = 0;
    while i < b.len()
        invariant
            i <= b@.len(),
            esc@ == escape_bytes(b@.subrange(0, i as int)),
            forall|k: int| 0 <= k < esc@.len() ==> esc@[k] < 128,
        decreases b@.len() - i,
    {
        let x = b[i];
        if x == 34 || x == 92 {
            esc.push(92u8);
            esc.push(x);
        } else if 32 <= x && x < 127 {
            esc.push(x);
        } else {
            let hi = x / 16;
            let lo = x % 16;
            esc.push(92u8);
            esc.push(120u8);
            esc.push(if hi < 10 { 48 + hi } else { 87 + hi });
            esc.push(if lo < 10 { 48 + lo } else { 87 + lo });
        }
        assert(b@.subrange(0, i + 1).drop_last() =~= b@.subrange(0, i as int));
        i = i + 1;
    }
    assert(b@.subrange(0, b@.len() as int) =~= b@);
    out.append("\"");
    let text = ascii_to_string(esc.as_slice());
    out.append(text.as_str());
    out.append("\"");
}

} // verus!
