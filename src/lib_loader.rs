//! Errors of loading a plugin module, and the form of path the loader takes.
use vstd::prelude::*;

use crate::utils::{all_ascii, decode_utf16_lossy, decode_utf8_lossy, utf16_lossy};

verus! {

/// Why a plugin module could not be loaded. Each text is the operating
/// system's description of its last error.
#[derive(Debug)]
pub enum PluginLoadError {
    CannotOpenAsDataFile(String),
    LoadFailed(String),
    IoError(std::io::Error),
    InvalidPeFormat(String),
}

/// The UTF-16 code units of one character: the character itself below
/// 0x10000, else a leading and a trailing surrogate.
pub open spec fn utf16_units_of(c: char) -> Seq<u16> {
    if (c as int) < 0x10000 {
        seq![c as u16]
    } else {
        let v = c as int - 0x10000;
        seq![(0xD800 + v / 1024) as u16, (0xDC00 + v % 1024) as u16]
    }
}

/// The UTF-16 code units that encode a text, character by character.
pub open spec fn utf16_of(s: Seq<char>) -> Seq<u16>
    decreases s.len(),
{
    if s.len() == 0 {
        seq![]
    } else {
        utf16_units_of(s[0]) + utf16_of(s.drop_first())
    }
}

/// Relies on `str::encode_utf16`: the code units of the text's UTF-16 encoding,
/// in order.
#[verifier::external_body]
fn encode_utf16(s: &str) -> (r: Vec<u16>)
    ensures
        r@ == utf16_of(s@),
{
    s.encode_utf16().collect()
}

/// A path as the wide-character loader calls take it: UTF-16 with a zero
/// terminator.
pub fn utf16_path(path: &str) -> (r: Vec<u16>)
    ensures
        r@ == utf16_of(path@).push(0u16),
{
    let mut units = encode_utf16(path);
    units.push(0);
    units
}

/// A text with leading and trailing whitespace removed.
pub uninterp spec fn trim_of(s: Seq<char>) -> Seq<char>;

/// Relies on `str::trim`: the text without its leading and trailing whitespace.
#[verifier::external_body]
fn trim_text(s: &str) -> (r: String)
    ensures
        r@ == trim_of(s@),
{
    s.trim().to_string()
}

/// The ASCII decimal digits of `n`, most significant first.
pub open spec fn decimal_digits(n: nat) -> Seq<u8>
    decreases n,
{
    if n < 10 {
        seq![(48 + n) as u8]
    } else {
        decimal_digits(n / 10).push((48 + n % 10) as u8)
    }
}

/// The bytes of "OS Error ".
pub open spec fn os_error_prefix() -> Seq<u8> {
    seq![0x4Fu8, 0x53u8, 0x20u8, 0x45u8, 0x72u8, 0x72u8, 0x6Fu8, 0x72u8, 0x20u8]
}

/// The text given for an error code that the system could not describe.
pub open spec fn os_error_fallback(code: u32) -> Seq<u8> {
    os_error_prefix() + decimal_digits(code as nat)
}

/// Decimal digits are ASCII.
proof fn lemma_digits_ascii(n: nat)
    ensures
        all_ascii(decimal_digits(n)),
    decreases n,
{
    if n >= 10 {
        lemma_digits_ascii(n / 10);
    }
}

fn push_decimal(n: u32, out: &mut Vec<u8>)
    ensures
        final(out)@ == old(out)@ + decimal_digits(n as nat),
    decreases n,
{
    if n >= 10 {
        push_decimal(n / 10, out);
    }
    out.push(48 + (n % 10) as u8);
    assert(final(out)@ =~= old(out)@ + decimal_digits(n as nat));
}

/// The description of an operating-system error: the system's own message for
/// `code`, trimmed, or "OS Error" and the code when it gave no message.
pub fn os_error_message(code: u32, message: &[u16]) -> (r: String)
    ensures
        message@.len() == 0 ==> r@ == os_error_fallback(code).map_values(|b: u8| b as char),
        message@.len() > 0 ==> r@ == trim_of(utf16_lossy(message@)),
{
    if message.len() == 0 {
        let mut text: Vec<u8> = vec![0x4Fu8, 0x53u8, 0x20u8, 0x45u8, 0x72u8, 0x72u8, 0x6Fu8, 0x72u8, 0x20u8];
        assert(text@ =~= os_error_prefix());
        push_decimal(code, &mut text);
        proof {
            lemma_digits_ascii(code as nat);
            assert(all_ascii(text@));
        }
        decode_utf8_lossy(text.as_slice())
    } else {
        let full = decode_utf16_lossy(message);
        trim_text(full.as_str())
    }
}

} // verus!
