//! Hexadecimal rendering of received frames, used for diagnostics.

use vstd::prelude::*;

verus! {

/// The hexadecimal digit for `x`: `'0'` to `'9'`, then `'A'` to `'F'`;
/// `'?'` for values 16 and above, which `as_hex` never produces.
pub open spec fn spec_hex_digit(x: u8) -> char {
    if x == 0 {
        '0'
    } else if x == 1 {
        '1'
    } else if x == 2 {
        '2'
    } else if x == 3 {
        '3'
    } else if x == 4 {
        '4'
    } else if x == 5 {
        '5'
    } else if x == 6 {
        '6'
    } else if x == 7 {
        '7'
    } else if x == 8 {
        '8'
    } else if x == 9 {
        '9'
    } else if x == 10 {
        'A'
    } else if x == 11 {
        'B'
    } else if x == 12 {
        'C'
    } else if x == 13 {
        'D'
    } else if x == 14 {
        'E'
    } else if x == 15 {
        'F'
    } else {
        '?'
    }
}

/// The hexadecimal rendering of `bytes`: two digits per byte, high
/// nibble first, upper case.
pub open spec fn spec_hex(bytes: Seq<u8>) -> Seq<char> {
    Seq::new(
        2 * bytes.len(),
        |i: int|
            if i % 2 == 0 {
                spec_hex_digit(bytes[i / 2] / 16)
            } else {
                spec_hex_digit(bytes[i / 2] % 16)
            },
    )
}

fn inner_hex(x: u8) -> (r: &'static str)
    ensures
        r@ == seq![spec_hex_digit(x)],
{
    proof {
        reveal_strlit("0");
        reveal_strlit("1");
        reveal_strlit("2");
        reveal_strlit("3");
        reveal_strlit("4");
        reveal_strlit("5");
        reveal_strlit("6");
        reveal_strlit("7");
        reveal_strlit("8");
        reveal_strlit("9");
        reveal_strlit("A");
        reveal_strlit("B");
        reveal_strlit("C");
        reveal_strlit("D");
        reveal_strlit("E");
        reveal_strlit("F");
        reveal_strlit("?");
    }
    match x {
        0 => "0",
        1 => "1",
        2 => "2",
        3 => "3",
        4 => "4",
        5 => "5",
        6 => "6",
        7 => "7",
        8 => "8",
        9 => "9",
        10 => "A",
        11 => "B",
        12 => "C",
        13 => "D",
        14 => "E",
        15 => "F",
        _ => "?",
    }
}

/// Render `vec` as upper-case hexadecimal, two digits per byte.
pub fn as_hex(vec: &[u8]) -> (r: String)
    ensures
        r@ == spec_hex(vec@),
{
    let mut out = String::new();
    let mut i: usize = 0;
    while i < vec.len()
        invariant
            i <= vec@.len(),
            out@ == spec_hex(vec@.take(i as int)),
        decreases vec@.len() - i,
    {
        let b = vec[i];
        let hi = inner_hex(b >> 4);
        let lo = inner_hex(b & 0x0F);
        out.append(hi);
        out.append(lo);
        proof {
            assert(b >> 4 == b / 16 && b & 0x0F == b % 16) by (bit_vector);
            assert(out@ =~= spec_hex(vec@.take(i + 1)));
        }
        i = i + 1;
    }
    proof {
        assert(vec@.take(vec@.len() as int) =~= vec@);
    }
    out
}

} // verus!
