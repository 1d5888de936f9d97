//! Lines of text in a buffer of fixed capacity, as they are logged over the serial port.

use crate::curtain::CurtainState;
use core::fmt::Write;
use vstd::prelude::*;
use vstd::utf8::{encode_utf8, is_ascii_chars};

verus! {

/// `heapless::String`, a string of at most `N` bytes that lives without an allocator.
#[verifier::external_type_specification]
#[verifier::external_body]
pub struct ExHeaplessString<const N: usize>(heapless::String<N>);

/// `core::fmt::Error`, the error of a formatted write.
#[verifier::external_type_specification]
#[verifier::external_body]
pub struct ExFmtError(core::fmt::Error);

/// The characters that a line holds.
pub uninterp spec fn line_text(line: heapless::String<64>) -> Seq<char>;

/// The number of bytes that a text takes in a line.
pub open spec fn byte_len(text: Seq<char>) -> nat {
    encode_utf8(text).len()
}

/// The character of a decimal digit.
pub open spec fn digit_char(digit: nat) -> char {
    ('0' as u32 + digit) as char
}

/// The decimal digits of a number, most significant first, without leading zeros.
pub open spec fn decimal(n: nat) -> Seq<char>
    decreases n,
{
    if n < 10 {
        seq![digit_char(n)]
    } else {
        decimal(n / 10).push(digit_char(n % 10))
    }
}

/// Calls `heapless::String::new`: the string starts out empty.
#[verifier::external_body]
fn empty_line() -> (line: heapless::String<64>)
    ensures
        line_text(line) == Seq::<char>::empty(),
{
    heapless::String::new()
}

/// Calls `write_str` of `core::fmt::Write` for `heapless::String`. It appends the text if the
/// bytes of both fit in the capacity; if they do not, it fails and appends nothing.
#[verifier::external_body]
fn write_text(line: &mut heapless::String<64>, text: &str) -> (result: Result<(), core::fmt::Error>)
    ensures
        result is Ok <==> byte_len(line_text(*old(line))) + byte_len(text@) <= 64,
        result is Ok ==> line_text(*final(line)) == line_text(*old(line)) + text@,
        result is Err ==> line_text(*final(line)) == line_text(*old(line)),
{
    line.write_str(text)
}

/// Calls `write_fmt` of `core::fmt::Write` for `heapless::String` with a `u32` in the plain
/// `{}` format, which std writes as decimal digits. It succeeds if the digits fit in the
/// capacity, and has then appended them; if they do not fit it fails, and what was there before
/// is still there. How many digits a failed call leaves behind is not stated.
#[verifier::external_body]
fn write_number(line: &mut heapless::String<64>, n: u32) -> (result: Result<(), core::fmt::Error>)
    ensures
        result is Ok <==> byte_len(line_text(*old(line))) + byte_len(decimal(n as nat)) <= 64,
        result is Ok ==> line_text(*final(line)) == line_text(*old(line)) + decimal(n as nat),
        line_text(*old(line)).is_prefix_of(line_text(*final(line))),
{
    write!(line, "{}", n)
}

/// The line that reports a lux value.
pub open spec fn lux_text(lux: nat) -> Seq<char> {
    "Lux: "@ + decimal(lux) + "\r\n"@
}

/// The line that reports a lux value and the state of the curtain.
pub open spec fn status_text(lux: nat, state: CurtainState) -> Seq<char> {
    "Lux: "@ + decimal(lux) + " State: "@ + state.name() + "\r\n"@
}

/// Formats the line that reports a lux value. Every `u32` fits, so nothing is cut off.
pub fn lux_line(lux: u32) -> (line: heapless::String<64>)
    ensures
        line_text(line) == lux_text(lux as nat),
        line_text(line) == "Lux: "@ + decimal(lux as nat) + "\r\n"@,
{
    proof {
        lemma_decimal_u32(lux);
        lemma_label_bytes();
    }
    let mut line = empty_line();
    let _ = write_text(&mut line, "Lux: ");
    let _ = write_number(&mut line, lux);
    let _ = write_text(&mut line, "\r\n");
    line
}

/// Formats the line that reports a lux value and the state of the curtain. Every `u32` fits,
/// so nothing is cut off.
pub fn status_line(lux: u32, state: &CurtainState) -> (line: heapless::String<64>)
    ensures
        line_text(line) == status_text(lux as nat, *state),
        line_text(line) == "Lux: "@ + decimal(lux as nat) + " State: "@ + state.name() + "\r\n"@,
{
    proof {
        lemma_decimal_u32(lux);
        lemma_label_bytes();
    }
    let mut line = empty_line();
    let _ = write_text(&mut line, "Lux: ");
    let _ = write_number(&mut line, lux);
    let _ = write_text(&mut line, " State: ");
    let _ = write_text(&mut line, state.as_str());
    let _ = write_text(&mut line, "\r\n");
    line
}

/// The number that a text of decimal digits stands for.
pub open spec fn decimal_value(digits: Seq<char>) -> nat
    decreases digits.len(),
{
    if digits.len() == 0 {
        0
    } else {
        (10 * decimal_value(digits.drop_last()) + (digits.last() as u32 - '0' as u32)) as nat
    }
}

/// The digits of a number read back as that number.
pub proof fn law_decimal_reads_back(n: nat)
    ensures
        decimal_value(decimal(n)) == n,
    decreases n,
{
    reveal_with_fuel(decimal_value, 2);
    if n >= 10 {
        law_decimal_reads_back(n / 10);
        assert(decimal(n).drop_last() == decimal(n / 10));
    }
}

/// Whether a text is the decimal notation of a number: only digits, no leading zero, and they
/// read back as the number.
pub open spec fn shows_number(digits: Seq<char>, n: nat) -> bool {
    &&& digits.len() > 0
    &&& forall|i: int| 0 <= i < digits.len() ==> '0' <= #[trigger] digits[i] <= '9'
    &&& digits.len() > 1 ==> digits[0] != '0'
    &&& decimal_value(digits) == n
}

/// A lux line is the label, the lux value in decimal notation and the line end.
pub proof fn law_lux_line_shows_the_lux(lux: nat)
    ensures
        ({
            let text = lux_text(lux);
            &&& text.len() >= 8
            &&& text.take(5) == "Lux: "@
            &&& text.skip(text.len() - 2) == "\r\n"@
            &&& shows_number(text.subrange(5, text.len() - 2), lux)
        }),
{
    let text = lux_text(lux);
    lemma_label_bytes();
    lemma_decimal_shows_number(lux);
    assert(text.take(5) =~= "Lux: "@);
    assert(text.skip(text.len() - 2) =~= "\r\n"@);
    assert(text.subrange(5, text.len() - 2) =~= decimal(lux));
}

/// A status line is the label, the lux value in decimal notation, and the name of the state
/// that it was asked to show, whatever the lux value.
pub proof fn law_status_line_shows_lux_and_state(lux: nat, state: CurtainState)
    ensures
        ({
            let text = status_text(lux, state);
            &&& text.len() >= 22
            &&& text.take(5) == "Lux: "@
            &&& shows_number(text.subrange(5, text.len() - 16), lux)
            &&& text.skip(text.len() - 16) == " State: Opened\r\n"@ <==> state
                == CurtainState::Opened
            &&& text.skip(text.len() - 16) == " State: Closed\r\n"@ <==> state
                == CurtainState::Closed
        }),
{
    let text = status_text(lux, state);
    lemma_label_bytes();
    lemma_decimal_shows_number(lux);
    reveal_strlit("Opened");
    reveal_strlit("Closed");
    reveal_strlit(" State: ");
    reveal_strlit("\r\n");
    reveal_strlit(" State: Opened\r\n");
    reveal_strlit(" State: Closed\r\n");
    let tail = text.skip(text.len() - 16);
    assert(text.take(5) =~= "Lux: "@);
    assert(text.subrange(5, text.len() - 16) =~= decimal(lux));
    assert(tail =~= " State: "@ + state.name() + "\r\n"@);
    assert(" State: Opened\r\n"@ =~= " State: "@ + "Opened"@ + "\r\n"@);
    assert(" State: Closed\r\n"@ =~= " State: "@ + "Closed"@ + "\r\n"@);
    assert(" State: Opened\r\n"@[8] != " State: Closed\r\n"@[8]);
}

/// Different readings are logged as different lines.
pub proof fn law_lines_tell_readings_apart(
    lux1: nat,
    lux2: nat,
    state1: CurtainState,
    state2: CurtainState,
)
    ensures
        lux_text(lux1) == lux_text(lux2) ==> lux1 == lux2,
        status_text(lux1, state1) == status_text(lux2, state2) ==> lux1 == lux2 && state1
            == state2,
{
    law_lux_line_shows_the_lux(lux1);
    law_lux_line_shows_the_lux(lux2);
    law_status_line_shows_lux_and_state(lux1, state1);
    law_status_line_shows_lux_and_state(lux2, state2);
}

/// `decimal` is the decimal notation.
proof fn lemma_decimal_shows_number(n: nat)
    ensures
        shows_number(decimal(n), n),
        n > 0 ==> decimal(n)[0] != '0',
    decreases n,
{
    law_decimal_reads_back(n);
    if n >= 10 {
        lemma_decimal_shows_number(n / 10);
    }
}

/// The fixed parts of a line are ASCII, and this long.
proof fn lemma_label_bytes()
    ensures
        is_ascii_chars("Lux: "@) && "Lux: "@.len() == 5,
        is_ascii_chars(" State: "@) && " State: "@.len() == 8,
        is_ascii_chars("\r\n"@) && "\r\n"@.len() == 2,
        forall|state: CurtainState|
            is_ascii_chars(#[trigger] state.name()) && state.name().len() == 6,
        is_ascii_chars(Seq::<char>::empty()),
        forall|text: Seq<char>| is_ascii_chars(text) ==> #[trigger] byte_len(text) == text.len(),
        forall|a: Seq<char>, b: Seq<char>|
            is_ascii_chars(a) && is_ascii_chars(b) ==> is_ascii_chars(#[trigger] (a + b)),
{
    reveal_strlit("Lux: ");
    reveal_strlit(" State: ");
    reveal_strlit("\r\n");
    reveal_strlit("Opened");
    reveal_strlit("Closed");
    assert forall|text: Seq<char>| is_ascii_chars(text) implies #[trigger] byte_len(text)
        == text.len() by {
        vstd::utf8::is_ascii_chars_encode_utf8(text);
    }
}

/// The digits of a `u32` are ASCII, and at most ten.
proof fn lemma_decimal_u32(n: u32)
    ensures
        is_ascii_chars(decimal(n as nat)),
        1 <= decimal(n as nat).len() <= 10,
{
    lemma_decimal_ascii(n as nat);
    reveal_with_fuel(decimal, 11);
}

proof fn lemma_decimal_ascii(n: nat)
    ensures
        is_ascii_chars(decimal(n)),
    decreases n,
{
    if n >= 10 {
        lemma_decimal_ascii(n / 10);
    }
}

} // verus!
