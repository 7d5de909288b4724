//! Rendering a byte sequence as escaped upper-case hexadecimal, four
//! characters per byte, for diagnostic display of a frame.

use vstd::prelude::*;

verus! {

/// The upper-case hexadecimal digit for a value below 16.
pub open spec fn hex_digit(n: u8) -> char
    recommends
        n < 16,
{
    if n == 0 {
        '0'
    } else if n == 1 {
        '1'
    } else if n == 2 {
        '2'
    } else if n == 3 {
        '3'
    } else if n == 4 {
        '4'
    } else if n == 5 {
        '5'
    } else if n == 6 {
        '6'
    } else if n == 7 {
        '7'
    } else if n == 8 {
        '8'
    } else if n == 9 {
        '9'
    } else if n == 10 {
        'A'
    } else if n == 11 {
        'B'
    } else if n == 12 {
        'C'
    } else if n == 13 {
        'D'
    } else if n == 14 {
        'E'
    } else {
        'F'
    }
}

/// One byte rendered as a backslash, an `x`, and its two hexadecimal digits.
pub open spec fn byte_hex(b: u8) -> Seq<char> {
    seq!['\\', 'x', hex_digit(b >> 4), hex_digit(b & 0xf)]
}

/// A byte sequence rendered byte by byte, in order.
pub open spec fn hex_chars(s: Seq<u8>) -> Seq<char>
    decreases s.len(),
{
    if s.len() == 0 {
        Seq::empty()
    } else {
        hex_chars(s.drop_last()) + byte_hex(s.last())
    }
}

/// The hexadecimal digit for `n`, as a one-character string.
fn hex_digit_str(n: u8) -> (r: &'static str)
    requires
        n < 16,
    ensures
        r@ == seq![hex_digit(n)],
{
    let r: &'static str = match n {
        0 => "0",
        1 => "1",
        2 => "2",
        3 => "3",
        4 => "4",
        5 => "5",
        6 => "6",
        7 => "7",
        8 => "8",
        9 => "9",
        10 => "A",
        11 => "B",
        12 => "C",
        13 => "D",
        14 => "E",
        _ => "F",
    };
    proof {
        reveal_strlit("0");
        reveal_strlit("1");
        reveal_strlit("2");
        reveal_strlit("3");
        reveal_strlit("4");
        reveal_strlit("5");
        reveal_strlit("6");
        reveal_strlit("7");
        reveal_strlit("8");
        reveal_strlit("9");
        reveal_strlit("A");
        reveal_strlit("B");
        reveal_strlit("C");
        reveal_strlit("D");
        reveal_strlit("E");
        reveal_strlit("F");
        assert(r@ =~= seq![hex_digit(n)]);
    }
    r
}

/// Renders `data` as `\xHH` groups, one per byte, upper case, in order.
pub fn to_hex(data: &[u8]) -> (r: String)
    ensures
        r@ == hex_chars(data@),
{
    let mut out = String::new();
    let n = data.len();
    for i in 0..n
        invariant
            n == data@.len(),
            out@ == hex_chars(data@.take(i as int)),
    {
        let b = data[i];
        proof {
            assert(b >> 4 < 16 && b & 0xf < 16) by (bit_vector);
        }
        out.append("\\x");
        out.append(hex_digit_str(b >> 4));
        out.append(hex_digit_str(b & 0xf));
        proof {
            reveal_strlit("\\x");
            assert(data@.take(i + 1).drop_last() =~= data@.take(i as int));
            assert(data@.take(i + 1).last() == data@[i as int]);
            assert(out@ =~= hex_chars(data@.take(i + 1)));
        }
    }
    proof {
        assert(data@.take(n as int) =~= data@);
    }
    out
}

} // verus!
