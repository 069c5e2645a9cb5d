//! Human-readable rendering of byte counts, and the small verified string
//! helpers (decimal rendering, padding) that the progress reports build on.
//!
//! Quantities are rendered in integer arithmetic with two decimal places:
//! the value scaled by 100, divided by the unit size, and rounded to the
//! nearest (ties to even).

use vstd::prelude::*;
use vstd::string::StrSliceExecFns;
use vstd::string::StringExecFns;

verus! {

/// The character of one decimal digit.
pub open spec fn digit_char(d: int) -> char {
    if d == 0 {
        '0'
    } else if d == 1 {
        '1'
    } else if d == 2 {
        '2'
    } else if d == 3 {
        '3'
    } else if d == 4 {
        '4'
    } else if d == 5 {
        '5'
    } else if d == 6 {
        '6'
    } else if d == 7 {
        '7'
    } else if d == 8 {
        '8'
    } else {
        '9'
    }
}

/// The decimal rendering of a number, most significant digit first.
pub open spec fn dec_spec(n: nat) -> Seq<char>
    decreases n,
{
    if n < 10 {
        seq![digit_char(n as int)]
    } else {
        dec_spec(n / 10).push(digit_char((n % 10) as int))
    }
}

/// A run of `n` spaces.
pub open spec fn spaces(n: nat) -> Seq<char>
    decreases n,
{
    if n == 0 {
        Seq::<char>::empty()
    } else {
        spaces((n - 1) as nat).push(' ')
    }
}

/// `s` left-padded with spaces to `width` characters; a string already that
/// wide is returned unchanged.
pub open spec fn pad_left_spec(s: Seq<char>, width: nat) -> Seq<char> {
    if s.len() >= width {
        s
    } else {
        spaces((width - s.len()) as nat) + s
    }
}

/// `s` right-padded with spaces to `width` characters; a string already that
/// wide is returned unchanged.
pub open spec fn pad_right_spec(s: Seq<char>, width: nat) -> Seq<char> {
    if s.len() >= width {
        s
    } else {
        s + spaces((width - s.len()) as nat)
    }
}

/// The string of one decimal digit.
pub fn digit_str(d: u8) -> (r: &'static str)
    requires
        d < 10,
    ensures
        r@ == seq![digit_char(d as int)],
{
    match d {
        0 => {
            proof {
                reveal_strlit("0");
                assert("0"@ =~= seq![digit_char(0)]);
            }
            "0"
        },
        1 => {
            proof {
                reveal_strlit("1");
                assert("1"@ =~= seq![digit_char(1)]);
            }
            "1"
        },
        2 => {
            proof {
                reveal_strlit("2");
                assert("2"@ =~= seq![digit_char(2)]);
            }
            "2"
        },
        3 => {
            proof {
                reveal_strlit("3");
                assert("3"@ =~= seq![digit_char(3)]);
            }
            "3"
        },
        4 => {
            proof {
                reveal_strlit("4");
                assert("4"@ =~= seq![digit_char(4)]);
            }
            "4"
        },
        5 => {
            proof {
                reveal_strlit("5");
                assert("5"@ =~= seq![digit_char(5)]);
            }
            "5"
        },
        6 => {
            proof {
                reveal_strlit("6");
                assert("6"@ =~= seq![digit_char(6)]);
            }
            "6"
        },
        7 => {
            proof {
                reveal_strlit("7");
                assert("7"@ =~= seq![digit_char(7)]);
            }
            "7"
        },
        8 => {
            proof {
                reveal_strlit("8");
                assert("8"@ =~= seq![digit_char(8)]);
            }
            "8"
        },
        _ => {
            proof {
                reveal_strlit("9");
                assert("9"@ =~= seq![digit_char(9)]);
            }
            "9"
        },
    }
}

/// Renders a number in decimal.
pub fn u64_to_dec(n: u64) -> (r: String)
    ensures
        r@ == dec_spec(n as nat),
{
    let mut m: u64 = n;
    let mut acc: String = String::new();
    if m == 0 {
        return String::from_str(digit_str(0));
    }
    while m > 0
        invariant
            m > 0 ==> dec_spec(n as nat) == dec_spec(m as nat) + acc@,
            m == 0 ==> dec_spec(n as nat) == acc@,
        decreases m,
    {
        let d: u8 = (m % 10) as u8;
        let ghost prev_acc = acc@;
        acc = String::from_str(digit_str(d)).concat(acc.as_str());
        proof {
            if m >= 10 {
                assert(dec_spec(m as nat) == dec_spec((m as nat) / 10).push(
                    digit_char(((m as nat) % 10) as int),
                ));
                assert(dec_spec((m as nat) / 10).push(digit_char(((m as nat) % 10) as int))
                    + prev_acc =~= dec_spec((m as nat) / 10) + acc@);
            } else {
                assert(dec_spec(m as nat) + prev_acc =~= acc@);
            }
        }
        m = m / 10;
    }
    acc
}

/// Left-pads with spaces to the given width.
pub fn pad_left(s: String, width: usize) -> (r: String)
    ensures
        r@ == pad_left_spec(s@, width as nat),
{
    let n = s.as_str().unicode_len();
    if n >= width {
        return s;
    }
    let mut pad: String = String::new();
    let mut k: usize = 0;
    proof {
        reveal_strlit(" ");
    }
    while k < width - n
        invariant
            n < width,
            k <= width - n,
            pad@ == spaces(k as nat),
            " "@ == seq![' '],
        decreases width - n - k,
    {
        let ghost prev = pad@;
        pad.append(" ");
        proof {
            assert(pad@ =~= prev.push(' '));
        }
        k = k + 1;
    }
    pad.concat(s.as_str())
}

/// Right-pads with spaces to the given width.
pub fn pad_right(s: String, width: usize) -> (r: String)
    ensures
        r@ == pad_right_spec(s@, width as nat),
{
    let n = s.as_str().unicode_len();
    if n >= width {
        return s;
    }
    let mut pad: String = String::new();
    let mut k: usize = 0;
    proof {
        reveal_strlit(" ");
    }
    while k < width - n
        invariant
            n < width,
            k <= width - n,
            pad@ == spaces(k as nat),
            " "@ == seq![' '],
        decreases width - n - k,
    {
        let ghost prev = pad@;
        pad.append(" ");
        proof {
            assert(pad@ =~= prev.push(' '));
        }
        k = k + 1;
    }
    s.concat(pad.as_str())
}

/// 1024 to the `i`th power: the size of the `i`th binary unit.
pub open spec fn pow1024(i: nat) -> nat
    decreases i,
{
    if i == 0 {
        1
    } else {
        1024 * pow1024((i - 1) as nat)
    }
}

/// The unit suffix of the `i`th binary magnitude.
pub open spec fn unit_suffix(i: int) -> Seq<char> {
    if i == 0 {
        seq!['B']
    } else if i == 1 {
        seq!['K', 'B']
    } else if i == 2 {
        seq!['M', 'B']
    } else if i == 3 {
        seq!['G', 'B']
    } else if i == 4 {
        seq!['T', 'B']
    } else {
        seq!['P', 'B']
    }
}

/// The magnitude a byte count is displayed in: the smallest unit in which
/// the displayed value stays below 1000, capped at the largest unit.
pub open spec fn unit_level(bytes: nat) -> int {
    if bytes < 1000 {
        0
    } else if bytes < 1000 * 1024 {
        1
    } else if bytes < 1000 * 1024 * 1024 {
        2
    } else if bytes < 1000 * 1024 * 1024 * 1024 {
        3
    } else if bytes < 1000 * 1024 * 1024 * 1024 * 1024 {
        4
    } else {
        5
    }
}

/// The value in hundredths of a display unit: `bytes / pow`, scaled by 100
/// and rounded to the nearest integer, ties to even — matching how the
/// exact binary quotient of a power-of-two division renders to two decimal
/// places.
pub open spec fn scaled_centi(bytes: nat, pow: nat) -> nat {
    let q = bytes * 100 / pow;
    let r = (bytes * 100) % pow;
    if 2 * r > pow {
        q + 1
    } else if 2 * r < pow {
        q
    } else if q % 2 == 0 {
        q
    } else {
        q + 1
    }
}

/// The human-readable rendering of a byte count: the count scaled to its
/// display unit with two decimal places (rounded to nearest, ties to even),
/// then the unit suffix — for example 1536 bytes render as `1.50KB`, and
/// 1000 bytes as `0.98KB`.
pub open spec fn readable_bytes_spec(bytes: nat) -> Seq<char> {
    let lvl = unit_level(bytes);
    let scaled = scaled_centi(bytes, pow1024(lvl as nat));
    dec_spec(scaled / 100) + seq!['.'] + seq![
        digit_char(((scaled % 100) / 10) as int),
        digit_char((scaled % 10) as int),
    ] + unit_suffix(lvl)
}

/// The unit suffix of the `i`th binary magnitude, as a string.
fn unit_str(i: usize) -> (r: &'static str)
    requires
        i <= 5,
    ensures
        r@ == unit_suffix(i as int),
{
    match i {
        0 => {
            proof {
                reveal_strlit("B");
                assert("B"@ =~= seq!['B']);
            }
            "B"
        },
        1 => {
            proof {
                reveal_strlit("KB");
                assert("KB"@ =~= seq!['K', 'B']);
            }
            "KB"
        },
        2 => {
            proof {
                reveal_strlit("MB");
                assert("MB"@ =~= seq!['M', 'B']);
            }
            "MB"
        },
        3 => {
            proof {
                reveal_strlit("GB");
                assert("GB"@ =~= seq!['G', 'B']);
            }
            "GB"
        },
        4 => {
            proof {
                reveal_strlit("TB");
                assert("TB"@ =~= seq!['T', 'B']);
            }
            "TB"
        },
        _ => {
            proof {
                reveal_strlit("PB");
                assert("PB"@ =~= seq!['P', 'B']);
            }
            "PB"
        },
    }
}

/// Renders a byte count human-readably, per `readable_bytes_spec`.
pub fn readable_bytes(bytes: u64) -> (r: String)
    ensures
        r@ == readable_bytes_spec(bytes as nat),
{
    let (lvl, pow): (usize, u64) = if bytes < 1000 {
        (0, 1)
    } else if bytes < 1024000 {
        (1, 1024)
    } else if bytes < 1048576000 {
        (2, 1048576)
    } else if bytes < 1073741824000 {
        (3, 1073741824)
    } else if bytes < 1099511627776000 {
        (4, 1099511627776)
    } else {
        (5, 1125899906842624)
    };
    proof {
        assert(pow1024(0) == 1);
        assert(pow1024(1) == 1024);
        assert(pow1024(2) == 1048576);
        assert(pow1024(3) == 1073741824);
        assert(pow1024(4) == 1099511627776);
        assert(pow1024(5) == 1125899906842624);
        assert(pow as nat == pow1024(lvl as nat));
        assert(lvl as int == unit_level(bytes as nat));
    }
    let n128: u128 = (bytes as u128) * 100;
    let q: u128 = n128 / (pow as u128);
    let rem: u128 = n128 % (pow as u128);
    let scaled128: u128 = if 2 * rem > pow as u128 {
        q + 1
    } else if 2 * rem < pow as u128 {
        q
    } else if q % 2 == 0 {
        q
    } else {
        q + 1
    };
    let scaled: u64 = scaled128 as u64;
    let int_part: u64 = scaled / 100;
    let frac: u64 = scaled % 100;
    let mut r = u64_to_dec(int_part);
    proof {
        reveal_strlit(".");
        assert("."@ =~= seq!['.']);
    }
    r.append(".");
    r.append(digit_str((frac / 10) as u8));
    r.append(digit_str((frac % 10) as u8));
    r.append(unit_str(lvl));
    proof {
        assert(scaled as nat == scaled_centi(bytes as nat, pow1024(lvl as nat)));
        assert((frac / 10) as int == ((scaled as nat % 100) / 10) as int);
        assert((frac % 10) as int == (scaled as nat % 10) as int);
        assert(r@ =~= readable_bytes_spec(bytes as nat));
    }
    r
}

/// Joins the already-rendered pieces of a throughput summary:
/// `<prefix> <files>: <bytes>, <rate>/s`.
pub fn compose_message_parts(prefix: &String, files: String, bytes: String, rate: String) -> (r:
    String)
    ensures
        r@ == prefix@ + seq![' '] + files@ + seq![':', ' '] + bytes@ + seq![',', ' '] + rate@
            + seq!['/', 's'],
{
    proof {
        reveal_strlit(" ");
        reveal_strlit(": ");
        reveal_strlit(", ");
        reveal_strlit("/s");
        assert(" "@ =~= seq![' ']);
        assert(": "@ =~= seq![':', ' ']);
        assert(", "@ =~= seq![',', ' ']);
        assert("/s"@ =~= seq!['/', 's']);
    }
    let mut r = prefix.clone();
    r.append(" ");
    r.append(files.as_str());
    r.append(": ");
    r.append(bytes.as_str());
    r.append(", ");
    r.append(rate.as_str());
    r.append("/s");
    r
}

} // verus!
