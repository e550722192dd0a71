//! Byte-size formatting: a byte count is rendered either as a bare
//! decimal with a `b` suffix, or scaled to the largest metric or binary
//! unit whose magnitude it reaches, with two fractional digits and
//! fixed-width alignment.

use byte_unit::ByteUnit;
use vstd::prelude::*;

verus! {

use vstd::string::StringExecFns;
use vstd::string::StringSliceAdditionalSpecFns;
use vstd::utf8::is_ascii_chars;

/// The unit system a byte count is rendered in.
#[derive(Clone, Copy, PartialEq, Eq, Structural, Debug)]
pub enum ByteFormat {
    /// Powers of 1000: B, KB, MB, GB, ...
    Metric,
    /// Powers of 1024: B, KiB, MiB, GiB, ...
    Binary,
    /// No unit conversion: the literal count with a `b` suffix.
    Bytes,
}

/// The character standing for one decimal digit.
pub open spec fn dec_digit(d: int) -> char {
    if d == 0 {
        '0'
    } else if d == 1 {
        '1'
    } else if d == 2 {
        '2'
    } else if d == 3 {
        '3'
    } else if d == 4 {
        '4'
    } else if d == 5 {
        '5'
    } else if d == 6 {
        '6'
    } else if d == 7 {
        '7'
    } else if d == 8 {
        '8'
    } else {
        '9'
    }
}

/// The decimal representation of a non-negative integer, most
/// significant digit first, without leading zeros (except for zero
/// itself).
pub open spec fn dec_spec(n: int) -> Seq<char>
    decreases n,
{
    if n < 10 {
        seq![dec_digit(n)]
    } else {
        dec_spec(n / 10).push(dec_digit(n % 10))
    }
}

/// The one-character string for a single decimal digit.
fn digit_string(d: u64) -> (r: String)
    requires
        d < 10,
    ensures
        r@ == seq![dec_digit(d as int)],
{
    proof {
        reveal_strlit("0");
        reveal_strlit("1");
        reveal_strlit("2");
        reveal_strlit("3");
        reveal_strlit("4");
        reveal_strlit("5");
        reveal_strlit("6");
        reveal_strlit("7");
        reveal_strlit("8");
        reveal_strlit("9");
    }
    match d {
        0 => "0".to_owned(),
        1 => "1".to_owned(),
        2 => "2".to_owned(),
        3 => "3".to_owned(),
        4 => "4".to_owned(),
        5 => "5".to_owned(),
        6 => "6".to_owned(),
        7 => "7".to_owned(),
        8 => "8".to_owned(),
        _ => "9".to_owned(),
    }
}

/// The exponent of the largest binary unit (1024 to this power) that
/// the byte count reaches, so that the scaled magnitude is at least 1;
/// zero when the count is below 1024.
pub open spec fn bin_exp(b: int) -> int {
    if b >= 1152921504606846976 {
        6
    } else if b >= 1125899906842624 {
        5
    } else if b >= 1099511627776 {
        4
    } else if b >= 1073741824 {
        3
    } else if b >= 1048576 {
        2
    } else if b >= 1024 {
        1
    } else {
        0
    }
}

/// The exponent of the largest metric unit (1000 to this power) that
/// the byte count reaches, so that the scaled magnitude is at least 1;
/// zero when the count is below 1000.
pub open spec fn met_exp(b: int) -> int {
    if b >= 1000000000000000000 {
        6
    } else if b >= 1000000000000000 {
        5
    } else if b >= 1000000000000 {
        4
    } else if b >= 1000000000 {
        3
    } else if b >= 1000000 {
        2
    } else if b >= 1000 {
        1
    } else {
        0
    }
}

/// The unit exponent chosen for a byte count under either unit system.
pub open spec fn exp_of(b: int, binary: bool) -> int {
    if binary {
        bin_exp(b)
    } else {
        met_exp(b)
    }
}

/// The name of the unit with the given exponent: powers of 1024 carry
/// the binary names, powers of 1000 the metric ones, and exponent zero
/// is the bare byte unit in both systems.
pub open spec fn unit_name(binary: bool, e: int) -> Seq<char> {
    if e == 0 {
        "B"@
    } else if binary {
        if e == 1 {
            "KiB"@
        } else if e == 2 {
            "MiB"@
        } else if e == 3 {
            "GiB"@
        } else if e == 4 {
            "TiB"@
        } else if e == 5 {
            "PiB"@
        } else {
            "EiB"@
        }
    } else {
        if e == 1 {
            "kB"@
        } else if e == 2 {
            "MB"@
        } else if e == 3 {
            "GB"@
        } else if e == 4 {
            "TB"@
        } else if e == 5 {
            "PB"@
        } else {
            "EB"@
        }
    }
}

/// Whether a unit name belongs to the binary (1024-based) table.
pub open spec fn is_binary_unit(u: Seq<char>) -> bool {
    u == "B"@ || u == "KiB"@ || u == "MiB"@ || u == "GiB"@ || u == "TiB"@ || u == "PiB"@
        || u == "EiB"@
}

/// Whether a unit name belongs to the metric (1000-based) table.
pub open spec fn is_metric_unit(u: Seq<char>) -> bool {
    u == "B"@ || u == "kB"@ || u == "MB"@ || u == "GB"@ || u == "TB"@ || u == "PB"@ || u == "EB"@
}

/// The unit name as the external byte-unit library prints it: the same
/// table, except that it renders the metric kilobyte "KB" where this
/// library renders the conventional "kB".
pub open spec fn ext_unit_name(binary: bool, e: int) -> Seq<char> {
    if !binary && e == 1 {
        "KB"@
    } else {
        unit_name(binary, e)
    }
}

/// A binary rendering only ever carries a binary unit name.
pub proof fn lemma_binary_unit_names(b: int)
    ensures
        is_binary_unit(unit_name(true, bin_exp(b))),
{
}

/// A metric rendering only ever carries a metric unit name.
pub proof fn lemma_metric_unit_names(b: int)
    ensures
        is_metric_unit(unit_name(false, met_exp(b))),
{
}

/// How many characters each unit name has; the external library's
/// spelling has the same length as this library's.
pub proof fn lemma_unit_name_len(binary: bool, e: int)
    requires
        0 <= e <= 6,
    ensures
        unit_name(binary, e).len() == (if e == 0 {
            1int
        } else if binary {
            3int
        } else {
            2int
        }),
        ext_unit_name(binary, e).len() == unit_name(binary, e).len(),
{
    reveal_strlit("B");
    reveal_strlit("kB");
    reveal_strlit("KiB");
    reveal_strlit("MiB");
    reveal_strlit("GiB");
    reveal_strlit("TiB");
    reveal_strlit("PiB");
    reveal_strlit("EiB");
    reveal_strlit("KB");
    reveal_strlit("MB");
    reveal_strlit("GB");
    reveal_strlit("TB");
    reveal_strlit("PB");
    reveal_strlit("EB");
}

/// The scaled rendering that the external byte-unit library produces
/// for a byte count and a chosen unit: the magnitude divided by the
/// unit's byte count, with two fractional digits, a space, and the unit
/// name. It depends on its arguments alone.
pub uninterp spec fn scaled_repr(b: int, binary: bool, e: int) -> Seq<char>;

/// The numeric field of a scaled rendering: everything before the space
/// that separates it from the unit name.
pub open spec fn scaled_num(b: int, binary: bool, e: int) -> Seq<char> {
    let s = scaled_repr(b, binary, e);
    s.take(s.len() - 1 - ext_unit_name(binary, e).len())
}

/// Whether a character is a decimal digit.
pub open spec fn is_dec_digit_char(c: char) -> bool {
    '0' <= c && c <= '9'
}

/// Whether a numeric field ends in a decimal point followed by exactly
/// two digits.
pub open spec fn two_fraction_digits(num: Seq<char>) -> bool {
    &&& num.len() >= 4
    &&& num[num.len() - 3] == '.'
    &&& is_dec_digit_char(num[num.len() - 2])
    &&& is_dec_digit_char(num[num.len() - 1])
}

/// Relies on byte_unit::Byte::from_bytes, byte_unit::Byte::get_adjusted_unit
/// and byte_unit::AdjustedByte::format: the result renders the byte count
/// scaled to the given unit with two fractional digits (no fractional
/// digits for the bare byte unit, where the field is the plain decimal
/// count), then a single space, then the unit's name as that library
/// spells it, all of it ASCII.
#[verifier::external_body]
fn scaled_format(b: u64, binary: bool, exp: usize) -> (r: String)
    requires
        exp <= 6,
    ensures
        r@ == scaled_repr(b as int, binary, exp as int),
        is_ascii_chars(r@),
        r@.len() <= usize::MAX,
        r@.len() > 1 + ext_unit_name(binary, exp as int).len(),
        r@ =~= scaled_num(b as int, binary, exp as int) + seq![' '] + ext_unit_name(
            binary,
            exp as int,
        ),
        exp >= 1 ==> two_fraction_digits(
            r@.take(r@.len() - 1 - ext_unit_name(binary, exp as int).len()),
        ),
        exp == 0 && b < 1024 ==> r@ =~= dec_spec(b as int) + seq![' '] + "B"@,
{
    let unit = match (binary, exp) {
        (_, 0) => ByteUnit::B,
        (true, 1) => ByteUnit::KiB, (true, 2) => ByteUnit::MiB, (true, 3) => ByteUnit::GiB,
        (true, 4) => ByteUnit::TiB, (true, 5) => ByteUnit::PiB, (true, _) => ByteUnit::EiB,
        (false, 1) => ByteUnit::KB, (false, 2) => ByteUnit::MB, (false, 3) => ByteUnit::GB,
        (false, 4) => ByteUnit::TB, (false, 5) => ByteUnit::PB, (false, _) => ByteUnit::EB,
    };
    byte_unit::Byte::from_bytes(b as u128).get_adjusted_unit(unit).format(2)
}

/// The exponent of the unit the byte count is rendered in.
pub fn select_exp(b: u64, binary: bool) -> (e: usize)
    ensures
        e as int == exp_of(b as int, binary),
        e <= 6,
{
    if binary {
        if b >= 1152921504606846976 {
            6
        } else if b >= 1125899906842624 {
            5
        } else if b >= 1099511627776 {
            4
        } else if b >= 1073741824 {
            3
        } else if b >= 1048576 {
            2
        } else if b >= 1024 {
            1
        } else {
            0
        }
    } else {
        if b >= 1000000000000000000 {
            6
        } else if b >= 1000000000000000 {
            5
        } else if b >= 1000000000000 {
            4
        } else if b >= 1000000000 {
            3
        } else if b >= 1000000 {
            2
        } else if b >= 1000 {
            1
        } else {
            0
        }
    }
}

/// The name of the unit with the given exponent, as a string.
fn unit_string(binary: bool, exp: usize) -> (r: &'static str)
    requires
        exp <= 6,
    ensures
        r@ == unit_name(binary, exp as int),
{
    match (binary, exp) {
        (_, 0) => "B",
        (true, 1) => "KiB",
        (true, 2) => "MiB",
        (true, 3) => "GiB",
        (true, 4) => "TiB",
        (true, 5) => "PiB",
        (true, _) => "EiB",
        (false, 1) => "kB",
        (false, 2) => "MB",
        (false, 3) => "GB",
        (false, 4) => "TB",
        (false, 5) => "PB",
        (false, _) => "EB",
    }
}

/// A run of space characters.
pub open spec fn spaces(n: int) -> Seq<char>
    decreases n,
{
    if n <= 0 {
        Seq::empty()
    } else {
        spaces(n - 1).push(' ')
    }
}

/// A sequence right-aligned in a field of the given width: padded with
/// spaces on the left when shorter, kept whole when not.
pub open spec fn pad_left(s: Seq<char>, width: int) -> Seq<char> {
    spaces(width - s.len()) + s
}

/// The full fixed-width rendering of a byte count under a scaled unit
/// system: the numeric field right-aligned to 8 characters, a space,
/// and the unit name right-aligned to the given width.
pub open spec fn adjusted_display(b: int, binary: bool, w: int) -> Seq<char> {
    pad_left(scaled_num(b, binary, exp_of(b, binary)), 8) + seq![' '] + pad_left(
        unit_name(binary, exp_of(b, binary)),
        w,
    )
}

/// Append a run of spaces to a string.
fn append_spaces(out: &mut String, n: usize)
    ensures
        final(out)@ == old(out)@ + spaces(n as int),
{
    let mut i: usize = 0;
    while i < n
        invariant
            i <= n,
            out@ =~= old(out)@ + spaces(i as int),
        decreases n - i,
    {
        out.append(" ");
        proof {
            reveal_strlit(" ");
            assert(spaces(i + 1) =~= spaces(i as int).push(' '));
            assert(out@ =~= old(out)@ + spaces(i + 1));
        }
        i = i + 1;
    }
}

/// Render a byte count scaled to the largest unit of the chosen system
/// whose magnitude it reaches, with two fractional digits and the
/// numeric and unit fields right-aligned. Below the smallest threshold
/// the numeric field is the plain decimal count.
#[verifier::rlimit(60)]
pub fn format_adjusted(b: u64, binary: bool, unit_width: usize) -> (r: String)
    ensures
        r@ == adjusted_display(b as int, binary, unit_width as int),
        exp_of(b as int, binary) >= 1 ==> two_fraction_digits(
            scaled_num(b as int, binary, exp_of(b as int, binary)),
        ),
        exp_of(b as int, binary) == 0 ==> scaled_num(b as int, binary, 0) == dec_spec(b as int),
{
    let exp = select_exp(b, binary);
    let s = scaled_format(b, binary, exp);
    let ghost sv = s@;
    let ghost e: int = exp as int;
    let ghost num = scaled_num(b as int, binary, e);
    let ulen: usize = if exp == 0 {
        1
    } else if binary {
        3
    } else {
        2
    };
    proof {
        lemma_unit_name_len(binary, e);
        assert(sv.len() == num.len() + 1 + ulen);
        if exp == 0 {
            reveal_strlit("B");
            let dec = dec_spec(b as int);
            assert(dec.len() == sv.len() - 2);
            assert(num =~= dec) by {
                assert(forall|k: int| 0 <= k < dec.len() ==> sv[k] == #[trigger] dec[k]);
            }
        }
    }
    let sr: &str = s.as_str();
    let slen: usize = sr.len();
    proof {
        vstd::utf8::is_ascii_chars_encode_utf8(sv);
        assert(slen as int == sv.len());
    }
    let i: usize = slen - 1 - ulen;
    proof {
        assert(num.len() == i as int);
        vstd::utf8::encode_utf8_valid_utf8(sv);
        vstd::utf8::is_ascii_chars_nat_bound(sv);
        assert(sr.spec_bytes()[i as int] == sv[i as int] as u8);
        assert((sv[i as int] as nat) < 128);
        assert(!vstd::utf8::is_continuation_byte(sr.spec_bytes()[i as int]));
        vstd::utf8::is_char_boundary_iff_not_is_continuation_byte(sr.spec_bytes(), i as int);
    }
    let (num_str, _rest) = sr.split_at(i);
    proof {
        assert(is_ascii_chars(sv.take(i as int))) by {
            assert(forall|k: int|
                0 <= k < i as int ==> sv.take(i as int)[k] == #[trigger] sv[k]);
        }
        vstd::utf8::is_ascii_chars_encode_utf8(sv.take(i as int));
        assert(vstd::utf8::encode_utf8(sv.take(i as int)) =~= sr.spec_bytes().subrange(
            0,
            i as int,
        ));
        vstd::utf8::encode_utf8_decode_utf8(sv.take(i as int));
        vstd::utf8::encode_utf8_decode_utf8(num_str@);
        assert(num_str@ == sv.take(i as int));
        assert(num_str@ == num);
    }
    let u = unit_string(binary, exp);
    let mut out = String::new();
    let num_pad: usize = if i < 8 {
        8 - i
    } else {
        0
    };
    append_spaces(&mut out, num_pad);
    out.append(num_str);
    out.append(" ");
    let unit_pad: usize = if ulen < unit_width {
        unit_width - ulen
    } else {
        0
    };
    append_spaces(&mut out, unit_pad);
    out.append(u);
    proof {
        reveal_strlit(" ");
        assert(out@ =~= adjusted_display(b as int, binary, unit_width as int));
    }
    out
}

/// The decimal string of a byte count.
pub fn u64_to_decimal(n: u64) -> (r: String)
    ensures
        r@ == dec_spec(n as int),
    decreases n,
{
    if n < 10 {
        digit_string(n)
    } else {
        proof {
            assert(n / 10 < n) by (nonlinear_arith)
                requires
                    n >= 10,
            ;
        }
        let mut s = u64_to_decimal(n / 10);
        let d = digit_string(n % 10);
        s.append(d.as_str());
        proof {
            assert(s@ =~= dec_spec(n as int));
        }
        s
    }
}

} // verus!
