//! Lowercase hexadecimal rendering, used to show the raw value carried by
//! an unknown enum variant in a debug-friendly form.

use vstd::prelude::*;

verus! {

/// The lowercase hexadecimal digit for a value below 16.
pub open spec fn spec_hex_digit(d: int) -> char {
    if d == 0 {
        '0'
    } else if d == 1 {
        '1'
    } else if d == 2 {
        '2'
    } else if d == 3 {
        '3'
    } else if d == 4 {
        '4'
    } else if d == 5 {
        '5'
    } else if d == 6 {
        '6'
    } else if d == 7 {
        '7'
    } else if d == 8 {
        '8'
    } else if d == 9 {
        '9'
    } else if d == 10 {
        'a'
    } else if d == 11 {
        'b'
    } else if d == 12 {
        'c'
    } else if d == 13 {
        'd'
    } else if d == 14 {
        'e'
    } else {
        'f'
    }
}

/// The lowercase hexadecimal rendering of a value, most significant digit
/// first, with no leading zeros (a single `0` for zero itself).
pub open spec fn spec_hex(v: nat) -> Seq<char>
    decreases v,
{
    if v < 16 {
        seq![spec_hex_digit(v as int)]
    } else {
        spec_hex(v / 16).push(spec_hex_digit((v % 16) as int))
    }
}

/// Appends the hexadecimal digit for a value below 16.
fn append_hex_digit(s: &mut String, d: u32)
    requires
        d < 16,
    ensures
        final(s)@ == old(s)@.push(spec_hex_digit(d as int)),
{
    let ghost prefix = s@;
    if d == 0 {
        proof {
            reveal_strlit("0");
        }
        s.append("0");
    } else if d == 1 {
        proof {
            reveal_strlit("1");
        }
        s.append("1");
    } else if d == 2 {
        proof {
            reveal_strlit("2");
        }
        s.append("2");
    } else if d == 3 {
        proof {
            reveal_strlit("3");
        }
        s.append("3");
    } else if d == 4 {
        proof {
            reveal_strlit("4");
        }
        s.append("4");
    } else if d == 5 {
        proof {
            reveal_strlit("5");
        }
        s.append("5");
    } else if d == 6 {
        proof {
            reveal_strlit("6");
        }
        s.append("6");
    } else if d == 7 {
        proof {
            reveal_strlit("7");
        }
        s.append("7");
    } else if d == 8 {
        proof {
            reveal_strlit("8");
        }
        s.append("8");
    } else if d == 9 {
        proof {
            reveal_strlit("9");
        }
        s.append("9");
    } else if d == 10 {
        proof {
            reveal_strlit("a");
        }
        s.append("a");
    } else if d == 11 {
        proof {
            reveal_strlit("b");
        }
        s.append("b");
    } else if d == 12 {
        proof {
            reveal_strlit("c");
        }
        s.append("c");
    } else if d == 13 {
        proof {
            reveal_strlit("d");
        }
        s.append("d");
    } else if d == 14 {
        proof {
            reveal_strlit("e");
        }
        s.append("e");
    } else {
        proof {
            reveal_strlit("f");
        }
        s.append("f");
    }
    proof {
        assert(s@ =~= prefix.push(spec_hex_digit(d as int)));
    }
}

/// Appends the hexadecimal rendering of `v`, most significant digit first.
pub fn append_hex(s: &mut String, v: u32)
    ensures
        final(s)@ == old(s)@ + spec_hex(v as nat),
    decreases v,
{
    let ghost prefix = s@;
    if v < 16 {
        append_hex_digit(s, v);
        proof {
            assert(s@ =~= prefix + spec_hex(v as nat));
        }
    } else {
        append_hex(s, v / 16);
        append_hex_digit(s, v % 16);
        proof {
            assert(s@ =~= prefix + spec_hex(v as nat));
        }
    }
}

/// Renders `v` in the debug-friendly form `0x` followed by its lowercase
/// hexadecimal digits.
pub fn hex_string(v: u32) -> (r: String)
    ensures
        r@ == spec_hex_prefixed(v as nat),
{
    proof {
        reveal_strlit("0x");
    }
    let mut s = String::new();
    s.append("0x");
    append_hex(&mut s, v);
    proof {
        assert(s@ =~= spec_hex_prefixed(v as nat));
    }
    s
}

/// The rendering `hex_string` returns.
pub open spec fn spec_hex_prefixed(v: nat) -> Seq<char> {
    seq!['0', 'x'] + spec_hex(v)
}

} // verus!
