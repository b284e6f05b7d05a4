//! Fixed-capacity text lines, backed by `heapless::String`, and the decimal
//! rendering of unsigned integers into them.

use vstd::prelude::*;
use vstd::utf8::is_ascii_chars;

verus! {

/// Number of bytes one display line can hold.
pub const LINE_CAPACITY: usize = 32;

/// One display line: a `heapless::String` of fixed capacity.
pub type Line = heapless::String<32>;

#[verifier::external_type_specification]
#[verifier::external_body]
pub struct ExHeaplessString<const N: usize>(heapless::String<N>);

/// The characters that a line holds.
pub uninterp spec fn text_of(s: heapless::String<32>) -> Seq<char>;

/// Relies on `heapless::String::new`: the new string is empty.
#[verifier::external_body]
pub(crate) fn line_new() -> (r: Line)
    ensures
        text_of(r) == Seq::<char>::empty(),
{
    heapless::String::new()
}

/// Relies on `heapless::String::clear`: the string becomes empty.
#[verifier::external_body]
pub(crate) fn line_clear(s: &mut Line)
    ensures
        text_of(*final(s)) == Seq::<char>::empty(),
{
    s.clear()
}

/// Relies on `heapless::String::push_str`: when the bytes of `t` fit in the
/// remaining capacity they are appended and `Ok` is returned; otherwise the
/// string is left as it was and `Err` is returned. On ASCII text bytes and
/// characters coincide.
#[verifier::external_body]
pub(crate) fn line_push_str(s: &mut Line, t: &str) -> (r: Result<(), ()>)
    requires
        is_ascii_chars(text_of(*old(s))),
        is_ascii_chars(t@),
    ensures
        text_of(*old(s)).len() + t@.len() <= LINE_CAPACITY ==> r is Ok,
        r is Ok ==> text_of(*final(s)) == text_of(*old(s)) + t@,
        r is Err ==> text_of(*final(s)) == text_of(*old(s)),
{
    s.push_str(t)
}

/// Relies on `heapless::String::push`: an ASCII character takes one byte and
/// is appended when the string is not full; otherwise the string is left as
/// it was and `Err` is returned.
#[verifier::external_body]
pub(crate) fn line_push(s: &mut Line, c: char) -> (r: Result<(), ()>)
    requires
        is_ascii_chars(text_of(*old(s))),
        '\0' <= c <= '\u{7f}',
    ensures
        text_of(*old(s)).len() < LINE_CAPACITY ==> r is Ok,
        r is Ok ==> text_of(*final(s)) == text_of(*old(s)).push(c),
        r is Err ==> text_of(*final(s)) == text_of(*old(s)),
{
    s.push(c)
}

/// The ten decimal digits, in order of value.
pub open spec fn digit_chars() -> Seq<char> {
    seq!['0', '1', '2', '3', '4', '5', '6', '7', '8', '9']
}

/// The decimal notation of `n`: no sign, no leading zeros, `"0"` for zero.
pub open spec fn decimal(n: nat) -> Seq<char>
    decreases n,
{
    if n < 10 {
        seq![digit_chars()[n as int]]
    } else {
        decimal(n / 10).push(digit_chars()[(n % 10) as int])
    }
}

/// When `n < 10^k`, the notation of `n` is ASCII and has between one and `k`
/// digits.
pub proof fn lemma_decimal_len(n: nat, k: nat, pow: nat)
    requires
        pow == pow10(k),
        n < pow,
        k >= 1,
    ensures
        decimal(n).len() <= k,
        decimal(n).len() >= 1,
        is_ascii_chars(decimal(n)),
    decreases n,
{
    if n >= 10 {
        assert(k >= 2) by {
            if k == 1 {
                assert(pow10(1) == 10 * pow10(0));
            }
        }
        assert(pow10(k) == 10 * pow10((k - 1) as nat));
        lemma_decimal_len(n / 10, (k - 1) as nat, pow10((k - 1) as nat));
        let d = decimal(n);
        assert forall|i| 0 <= i < d.len() implies '\0' <= #[trigger] d[i] <= '\u{7f}' by {
            if i < d.len() - 1 {
                assert(d[i] == decimal(n / 10)[i]);
            }
        }
    }
}

/// Ten to the power `k`.
pub open spec fn pow10(k: nat) -> nat
    decreases k,
{
    if k == 0 {
        1
    } else {
        10 * pow10((k - 1) as nat)
    }
}

/// The character of the digit `d`.
fn digit_char(d: u32) -> (c: char)
    requires
        d < 10,
    ensures
        c == digit_chars()[d as int],
{
    match d {
        0 => '0',
        1 => '1',
        2 => '2',
        3 => '3',
        4 => '4',
        5 => '5',
        6 => '6',
        7 => '7',
        8 => '8',
        _ => '9',
    }
}

/// Appends the decimal notation of `n` to `s`.
pub fn push_decimal(s: &mut Line, n: u32)
    requires
        is_ascii_chars(text_of(*old(s))),
        text_of(*old(s)).len() + decimal(n as nat).len() <= LINE_CAPACITY,
    ensures
        text_of(*final(s)) == text_of(*old(s)) + decimal(n as nat),
        is_ascii_chars(text_of(*final(s))),
    decreases n,
{
    proof {
        reveal_with_fuel(pow10, 11);
        lemma_decimal_len(n as nat, 10, pow10(10));
    }
    if n >= 10 {
        push_decimal(s, n / 10);
    }
    let c = digit_char(n % 10);
    let _ = line_push(s, c);
    assert(text_of(*s) =~= text_of(*old(s)) + decimal(n as nat));
}

} // verus!
