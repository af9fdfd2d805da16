use vstd::prelude::*;
use vstd::string::StringExecFns;

verus! {

/// The character of a hexadecimal digit, upper or lower case.
pub open spec fn hex_char(d: nat, upper: bool) -> char {
    if d < 10 {
        (d + 48) as char
    } else if upper {
        (d - 10 + 65) as char
    } else {
        (d - 10 + 97) as char
    }
}

/// The character of a decimal digit.
pub open spec fn dec_char(d: nat) -> char {
    (d + 48) as char
}

/// `v` in hexadecimal, padded with zeros to at least `w` digits.
pub open spec fn hex_pad(v: nat, w: nat, upper: bool) -> Seq<char>
    decreases v, w,
{
    if v < 16 && w <= 1 {
        seq![hex_char(v, upper)]
    } else {
        hex_pad(v / 16, if w > 0 { (w - 1) as nat } else { 0 }, upper).push(hex_char(v % 16, upper))
    }
}

/// `v` in decimal.
pub open spec fn dec(v: nat) -> Seq<char>
    decreases v,
{
    if v < 10 {
        seq![dec_char(v)]
    } else {
        dec(v / 10).push(dec_char(v % 10))
    }
}

/// The one-character string of a hexadecimal digit.
fn hex_digit_str(d: u32, upper: bool) -> (r: &'static str)
    requires
        d < 16,
    ensures
        r@ == seq![hex_char(d as nat, upper)],
{
    proof {
        reveal_strlit("0");
        reveal_strlit("1");
        reveal_strlit("2");
        reveal_strlit("3");
        reveal_strlit("4");
        reveal_strlit("5");
        reveal_strlit("6");
        reveal_strlit("7");
        reveal_strlit("8");
        reveal_strlit("9");
        reveal_strlit("A");
        reveal_strlit("B");
        reveal_strlit("C");
        reveal_strlit("D");
        reveal_strlit("E");
        reveal_strlit("F");
        reveal_strlit("a");
        reveal_strlit("b");
        reveal_strlit("c");
        reveal_strlit("d");
        reveal_strlit("e");
        reveal_strlit("f");
    }
    let r = match d {
        0 => "0",
        1 => "1",
        2 => "2",
        3 => "3",
        4 => "4",
        5 => "5",
        6 => "6",
        7 => "7",
        8 => "8",
        9 => "9",
        10 => if upper { "A" } else { "a" },
        11 => if upper { "B" } else { "b" },
        12 => if upper { "C" } else { "c" },
        13 => if upper { "D" } else { "d" },
        14 => if upper { "E" } else { "e" },
        _ => if upper { "F" } else { "f" },
    };
    assert(r@ =~= seq![hex_char(d as nat, upper)]);
    r
}

/// Appends `v` in hexadecimal, padded with zeros to at least `w` digits.
pub fn push_hex(s: &mut String, v: u32, w: u32, upper: bool)
    ensures
        final(s)@ == old(s)@ + hex_pad(v as nat, w as nat, upper),
    decreases v, w,
{
    if v < 16 && w <= 1 {
        s.append(hex_digit_str(v, upper));
    } else {
        let w1: u32 = if w > 0 {
            w - 1
        } else {
            0
        };
        push_hex(s, v / 16, w1, upper);
        s.append(hex_digit_str(v % 16, upper));
        assert(hex_pad(v as nat, w as nat, upper) == hex_pad((v / 16) as nat, w1 as nat, upper).push(
            hex_char((v % 16) as nat, upper),
        ));
    }
}

/// Appends a 64-bit `v` in hexadecimal, padded with zeros to at least `w`
/// digits.
pub fn push_hex_wide(s: &mut String, v: u64, w: u32, upper: bool)
    ensures
        final(s)@ == old(s)@ + hex_pad(v as nat, w as nat, upper),
    decreases v, w,
{
    if v < 16 && w <= 1 {
        s.append(hex_digit_str(v as u32, upper));
    } else {
        let w1: u32 = if w > 0 {
            w - 1
        } else {
            0
        };
        push_hex_wide(s, v / 16, w1, upper);
        s.append(hex_digit_str((v % 16) as u32, upper));
        assert(hex_pad(v as nat, w as nat, upper) == hex_pad((v / 16) as nat, w1 as nat, upper).push(
            hex_char((v % 16) as nat, upper),
        ));
    }
}

/// Appends `v` in decimal.
pub fn push_dec(s: &mut String, v: u64)
    ensures
        final(s)@ == old(s)@ + dec(v as nat),
    decreases v,
{
    if v < 10 {
        s.append(hex_digit_str(v as u32, true));
    } else {
        push_dec(s, v / 10);
        s.append(hex_digit_str((v % 10) as u32, true));
        assert(dec(v as nat) == dec((v / 10) as nat).push(dec_char((v % 10) as nat)));
    }
}

/// Appends a string.
pub fn push_str(s: &mut String, t: &str)
    ensures
        final(s)@ == old(s)@ + t@,
{
    s.append(t);
}

/// What `str::to_lowercase` gives for a string: every character mapped to
/// its lower-case form.
pub uninterp spec fn lowercase(s: Seq<char>) -> Seq<char>;

/// `str::to_lowercase`. Claimed: the result is the lower-case mapping of
/// `s`, a function of `s` alone; nothing more of it is stated.
#[verifier::external_body]
pub(crate) fn to_lowercase(s: &str) -> (r: String)
    ensures
        r@ == lowercase(s@),
{
    s.to_lowercase()
}

/// What `String::from_utf8_lossy` gives for some bytes: their UTF-8
/// decoding, each invalid sequence replaced by U+FFFD.
pub uninterp spec fn utf8_lossy(b: Seq<u8>) -> Seq<char>;

/// `String::from_utf8_lossy`, made an owned string. Claimed: the result is
/// the lossy decoding of `b`, a function of `b` alone; nothing more of it
/// is stated.
#[verifier::external_body]
pub(crate) fn from_utf8_lossy(b: &[u8]) -> (r: String)
    ensures
        r@ == utf8_lossy(b@),
{
    String::from_utf8_lossy(b).into_owned()
}

} // verus!
