//! Human-readable byte-size rendering.
//!
//! The attach transaction publishes a file's size as text. Below 1000 bytes
//! the exact integer is shown with a `B` suffix; otherwise the size is shown
//! with one decimal place in `KB`, `MB`, `GB` or `TB`, each boundary strictly
//! below the next power of 1000 (the divisor is 1000, not 1024). The single
//! decimal is rounded to the nearest tenth, halves upward.

use vstd::prelude::*;
use vstd::string::*;

verus! {

pub open spec fn digit_char(d: nat) -> char {
    if d == 0 {
        '0'
    } else if d == 1 {
        '1'
    } else if d == 2 {
        '2'
    } else if d == 3 {
        '3'
    } else if d == 4 {
        '4'
    } else if d == 5 {
        '5'
    } else if d == 6 {
        '6'
    } else if d == 7 {
        '7'
    } else if d == 8 {
        '8'
    } else {
        '9'
    }
}

/// The decimal rendering of `n`, most significant digit first, no sign and
/// no leading zeros (a single `0` for zero).
pub open spec fn dec_str(n: nat) -> Seq<char>
    decreases n,
{
    if n < 10 {
        seq![digit_char(n)]
    } else {
        dec_str(n / 10).push(digit_char(n % 10))
    }
}

/// `b` scaled down by `unit` and rendered with one decimal place, the tenths
/// digit rounded to nearest with halves upward.
pub open spec fn scaled_str(b: nat, unit: nat) -> Seq<char>
    recommends
        unit >= 10,
{
    let tenths = (b * 10 + unit / 2) / unit;
    dec_str(tenths / 10) + seq!['.'] + dec_str(tenths % 10)
}

/// The size text published by the attach transaction.
pub open spec fn size_text(b: nat) -> Seq<char> {
    if b < 1000 {
        dec_str(b) + seq!['B']
    } else if b < 1000000 {
        scaled_str(b, 1000) + seq!['K', 'B']
    } else if b < 1000000000 {
        scaled_str(b, 1000000) + seq!['M', 'B']
    } else if b < 1000000000000 {
        scaled_str(b, 1000000000) + seq!['G', 'B']
    } else {
        scaled_str(b, 1000000000000) + seq!['T', 'B']
    }
}

fn append_digit(s: &mut String, d: u128)
    requires
        d < 10,
    ensures
        final(s)@ == old(s)@.push(digit_char(d as nat)),
{
    if d == 0 {
        s.append("0");
        proof {
            reveal_strlit("0");
            assert(old(s)@ + "0"@ =~= old(s)@.push('0'));
        }
    } else if d == 1 {
        s.append("1");
        proof {
            reveal_strlit("1");
            assert(old(s)@ + "1"@ =~= old(s)@.push('1'));
        }
    } else if d == 2 {
        s.append("2");
        proof {
            reveal_strlit("2");
            assert(old(s)@ + "2"@ =~= old(s)@.push('2'));
        }
    } else if d == 3 {
        s.append("3");
        proof {
            reveal_strlit("3");
            assert(old(s)@ + "3"@ =~= old(s)@.push('3'));
        }
    } else if d == 4 {
        s.append("4");
        proof {
            reveal_strlit("4");
            assert(old(s)@ + "4"@ =~= old(s)@.push('4'));
        }
    } else if d == 5 {
        s.append("5");
        proof {
            reveal_strlit("5");
            assert(old(s)@ + "5"@ =~= old(s)@.push('5'));
        }
    } else if d == 6 {
        s.append("6");
        proof {
            reveal_strlit("6");
            assert(old(s)@ + "6"@ =~= old(s)@.push('6'));
        }
    } else if d == 7 {
        s.append("7");
        proof {
            reveal_strlit("7");
            assert(old(s)@ + "7"@ =~= old(s)@.push('7'));
        }
    } else if d == 8 {
        s.append("8");
        proof {
            reveal_strlit("8");
            assert(old(s)@ + "8"@ =~= old(s)@.push('8'));
        }
    } else {
        s.append("9");
        proof {
            reveal_strlit("9");
            assert(old(s)@ + "9"@ =~= old(s)@.push('9'));
        }
    }
}

fn dec_string(n: u128) -> (r: String)
    ensures
        r@ == dec_str(n as nat),
    decreases n,
{
    if n < 10 {
        let mut s = String::new();
        append_digit(&mut s, n);
        proof {
            assert(Seq::<char>::empty().push(digit_char(n as nat)) =~= seq![
                digit_char(n as nat),
            ]);
        }
        s
    } else {
        let mut s = dec_string(n / 10);
        append_digit(&mut s, n % 10);
        s
    }
}

fn scaled_string(b: u128, unit: u128) -> (r: String)
    requires
        10 <= unit <= 1000000000000,
        b <= u64::MAX,
    ensures
        r@ == scaled_str(b as nat, unit as nat),
{
    let tenths = (b * 10 + unit / 2) / unit;
    let mut s = dec_string(tenths / 10);
    s.append(".");
    append_digit(&mut s, tenths % 10);
    proof {
        reveal_strlit(".");
        assert(s@ =~= scaled_str(b as nat, unit as nat));
    }
    s
}

/// Renders a byte count the way the remote service displays attachment
/// sizes.
pub fn size_to_text(bytes: usize) -> (r: String)
    ensures
        r@ == size_text(bytes as nat),
{
    let b = bytes as u128;
    if b < 1000 {
        let mut s = dec_string(b);
        s.append("B");
        proof {
            reveal_strlit("B");
            assert(s@ =~= size_text(bytes as nat));
        }
        s
    } else if b < 1000000 {
        let mut s = scaled_string(b, 1000);
        s.append("KB");
        proof {
            reveal_strlit("KB");
            assert(s@ =~= size_text(bytes as nat));
        }
        s
    } else if b < 1000000000 {
        let mut s = scaled_string(b, 1000000);
        s.append("MB");
        proof {
            reveal_strlit("MB");
            assert(s@ =~= size_text(bytes as nat));
        }
        s
    } else if b < 1000000000000 {
        let mut s = scaled_string(b, 1000000000);
        s.append("GB");
        proof {
            reveal_strlit("GB");
            assert(s@ =~= size_text(bytes as nat));
        }
        s
    } else {
        let mut s = scaled_string(b, 1000000000000);
        s.append("TB");
        proof {
            reveal_strlit("TB");
            assert(s@ =~= size_text(bytes as nat));
        }
        s
    }
}

} // verus!
