//! Identifiers and timestamps made from the system clock.
use vstd::prelude::*;
use crate::text::{decimal, push_str, u64_to_decimal};

verus! {

/// Reads the system clock: nanoseconds since the Unix epoch, or 0 when the
/// clock is before the epoch (`SystemTime::now().duration_since(UNIX_EPOCH)`).
/// The value depends on the time and is left unsaid.
#[verifier::external_body]
fn clock_nanos() -> u128 {
    std::time::SystemTime::now()
        .duration_since(std::time::UNIX_EPOCH)
        .unwrap_or_else(|_| std::time::Duration::from_secs(0))
        .as_nanos()
}

/// Reads the system clock: whole seconds since the Unix epoch, or 0 when the
/// clock is before the epoch. The value depends on the time and is left unsaid.
#[verifier::external_body]
fn clock_secs() -> u64 {
    std::time::SystemTime::now()
        .duration_since(std::time::UNIX_EPOCH)
        .unwrap_or_else(|_| std::time::Duration::from_secs(0))
        .as_secs()
}

/// A lower-case hexadecimal digit.
pub open spec fn hex_lower_digit(d: nat) -> char {
    if d < 10 {
        ((d + 48) as u32) as char
    } else {
        ((d + 87) as u32) as char
    }
}

/// The lowest `width` hexadecimal digits of `v`, most significant first
/// (`{:0width$x}` for a value below `16^width`).
pub open spec fn hex_lower(v: nat, width: nat) -> Seq<char>
    decreases width,
{
    if width == 0 {
        Seq::empty()
    } else {
        hex_lower(v / 16, (width - 1) as nat).push(hex_lower_digit(v % 16))
    }
}

fn push_hex(out: &mut String, v: u64, width: usize)
    ensures
        final(out)@ == old(out)@ + hex_lower(v as nat, width as nat),
{
    // Digits, least significant first.
    let mut digits: Vec<char> = Vec::new();
    let mut m: u64 = v;
    let mut k: usize = 0;
    while k < width
        invariant
            k <= width,
            digits@.len() == k,
            hex_lower(v as nat, width as nat) == hex_lower(m as nat, (width - k) as nat)
                + digits@.reverse(),
        decreases width - k,
    {
        let d: u8 = (m % 16) as u8;
        let c: char = if d < 10 {
            (d + 48) as char
        } else {
            (d + 87) as char
        };
        let ghost prev = digits@;
        digits.push(c);
        proof {
            assert(c == hex_lower_digit((m % 16) as nat));
            assert(digits@.reverse() =~= seq![c] + prev.reverse());
            assert(hex_lower(m as nat, (width - k) as nat) == hex_lower(
                (m / 16) as nat,
                (width - k - 1) as nat,
            ).push(c));
            assert(hex_lower(m as nat, (width - k) as nat) + prev.reverse() =~= hex_lower(
                (m / 16) as nat,
                (width - k - 1) as nat,
            ) + digits@.reverse());
        }
        m = m / 16;
        k = k + 1;
    }
    assert(hex_lower(m as nat, 0) =~= Seq::<char>::empty());
    let mut i: usize = digits.len();
    let ghost start = out@;
    while i > 0
        invariant
            i <= digits.len(),
            out@ == start + digits@.reverse().take((digits.len() - i) as int),
        decreases i,
    {
        i = i - 1;
        out.push(digits[i]);
        assert(out@ =~= start + digits@.reverse().take((digits.len() - i) as int));
    }
    assert(digits@.reverse().take(digits.len() as int) =~= digits@.reverse());
    assert(hex_lower(v as nat, width as nat) =~= digits@.reverse());
}

/// An identifier shaped like a version-4 UUID, made from the clock reading
/// `nanos`.
pub open spec fn uuid_like(nanos: u128) -> Seq<char> {
    hex_lower(((nanos & 0xffff_ffff) as u64) as nat, 8) + "-"@ + hex_lower(
        (((nanos >> 32u128) & 0xffff) as u64) as nat,
        4,
    ) + "-4"@ + hex_lower((((nanos >> 48u128) & 0x0fff) as u64) as nat, 3) + "-a"@ + hex_lower(
        (((nanos >> 60u128) & 0x0fff) as u64) as nat,
        3,
    ) + "-"@ + hex_lower((((nanos >> 72u128) & 0xffff_ffff_ffff) as u64) as nat, 12)
}

/// Writes the identifier for the clock reading `nanos`.
pub fn format_uuid_like(nanos: u128) -> (r: String)
    ensures
        r@ == uuid_like(nanos),
{
    let mut out = String::new();
    push_hex(&mut out, (nanos & 0xffff_ffff) as u64, 8);
    push_str(&mut out, "-");
    push_hex(&mut out, ((nanos >> 32u128) & 0xffff) as u64, 4);
    push_str(&mut out, "-4");
    push_hex(&mut out, ((nanos >> 48u128) & 0x0fff) as u64, 3);
    push_str(&mut out, "-a");
    push_hex(&mut out, ((nanos >> 60u128) & 0x0fff) as u64, 3);
    push_str(&mut out, "-");
    push_hex(&mut out, ((nanos >> 72u128) & 0xffff_ffff_ffff) as u64, 12);
    out
}

/// A fresh identifier made from the current time.
pub fn generate_uuid_like() -> (r: String)
    ensures
        exists|nanos: u128| r@ == uuid_like(nanos),
{
    let nanos = clock_nanos();
    format_uuid_like(nanos)
}

/// The current time as whole seconds since the Unix epoch, written in decimal.
pub fn current_timestamp_string() -> (r: String)
    ensures
        exists|secs: u64| r@ == decimal(secs as nat),
{
    let secs = clock_secs();
    u64_to_decimal(secs)
}

} // verus!
