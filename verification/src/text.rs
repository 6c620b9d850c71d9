//! Small helpers on strings and on bytes that hold text.

use vstd::prelude::*;
use vstd::string::{StrSliceExecFns, StringExecFns};
use vstd::utf8::{decode_utf8, valid_utf8};

verus! {

/// Whether two strings hold the same characters.
pub fn str_eq(a: &str, b: &str) -> (r: bool)
    ensures
        r == (a@ == b@),
{
    a.to_owned() == b.to_owned()
}

/// `s` without the leading `prefix`, or `s` itself where it does not begin
/// with `prefix`.
pub open spec fn without_prefix(s: Seq<char>, prefix: Seq<char>) -> Seq<char> {
    if prefix.is_prefix_of(s) {
        s.subrange(prefix.len() as int, s.len() as int)
    } else {
        s
    }
}

/// Removes `prefix` from the front of `s` where it stands there.
pub fn strip_prefix<'a>(s: &'a str, prefix: &str) -> (r: &'a str)
    ensures
        r@ == without_prefix(s@, prefix@),
{
    let n: usize = s.unicode_len();
    let p: usize = prefix.unicode_len();
    if p <= n && str_eq(s.substring_char(0, p), prefix) {
        s.substring_char(p, n)
    } else {
        s
    }
}

/// Reads bytes as UTF-8 text with std's `str::from_utf8`. The contract says
/// what std documents: the call succeeds exactly on well-formed UTF-8, and
/// the text then holds the characters that the bytes encode.
#[verifier::external_body]
pub(crate) fn text_from_utf8(bytes: &[u8]) -> (r: Option<&str>)
    ensures
        r is Some == valid_utf8(bytes@),
        r matches Some(s) ==> s@ == decode_utf8(bytes@),
{
    match std::str::from_utf8(bytes) {
        Ok(s) => Some(s),
        Err(_) => None,
    }
}

/// The sixteen digits, in order of their value.
pub const DIGITS: &'static str = "0123456789ABCDEF";

/// The digit of value `d`, as a text of one character.
pub open spec fn digit(d: int) -> Seq<char> {
    DIGITS@.subrange(d, d + 1)
}

/// `n` written in decimal, without leading zeros.
pub open spec fn decimal(n: nat) -> Seq<char>
    decreases n,
{
    if n < 10 {
        digit(n as int)
    } else {
        decimal(n / 10) + digit((n % 10) as int)
    }
}

/// The value of the hexadecimal place `k` of eight, counted from the left.
pub open spec fn hex_place(k: int) -> int {
    if k == 0 {
        0x1000_0000
    } else if k == 1 {
        0x100_0000
    } else if k == 2 {
        0x10_0000
    } else if k == 3 {
        0x1_0000
    } else if k == 4 {
        0x1000
    } else if k == 5 {
        0x100
    } else if k == 6 {
        0x10
    } else {
        1
    }
}

/// The first `k` of the eight upper-case hexadecimal digits of `v`.
pub open spec fn hex_prefix(v: u32, k: int) -> Seq<char>
    decreases k,
{
    if k <= 0 {
        Seq::<char>::empty()
    } else {
        hex_prefix(v, k - 1) + digit((v as int / hex_place(k - 1)) % 16)
    }
}

/// `v` written as eight upper-case hexadecimal digits after `0x`.
pub open spec fn hex_word(v: u32) -> Seq<char> {
    "0x"@ + hex_prefix(v, 8)
}

fn digit_str(d: usize) -> (r: &'static str)
    requires
        d < 16,
    ensures
        r@ == digit(d as int),
{
    proof {
        reveal_strlit("0123456789ABCDEF");
    }
    DIGITS.substring_char(d, d + 1)
}

/// Writes `n` in decimal.
pub fn decimal_string(n: u64) -> (r: String)
    ensures
        r@ == decimal(n as nat),
    decreases n,
{
    if n < 10 {
        digit_str(n as usize).to_owned()
    } else {
        let mut s = decimal_string(n / 10);
        s.append(digit_str((n % 10) as usize));
        s
    }
}

/// Writes `v` as `0x` and eight upper-case hexadecimal digits.
pub fn hex_string(v: u32) -> (r: String)
    ensures
        r@ == hex_word(v),
{
    let places: [u32; 8] = [0x1000_0000, 0x100_0000, 0x10_0000, 0x1_0000, 0x1000, 0x100, 0x10, 1];
    let mut s = "0x".to_owned();
    let mut k: usize = 0;
    while k < 8
        invariant
            k <= 8,
            s@ == "0x"@ + hex_prefix(v, k as int),
            forall|i: int| 0 <= i < 8 ==> places@[i] == hex_place(i),
        decreases 8 - k,
    {
        assert(places@[k as int] == hex_place(k as int));
        let d: u32 = (v / places[k]) % 16;
        s.append(digit_str(d as usize));
        k += 1;
        assert(s@ =~= "0x"@ + hex_prefix(v, k as int));
    }
    s
}

} // verus!
