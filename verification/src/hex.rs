//! Verified lowercase hex rendering: payload bytes for "read" records and
//! the `0x`-prefixed form of vendor/product IDs.

use vstd::prelude::*;
use vstd::string::StringExecFns;

verus! {

/// The lowercase hex digit for one value below 16.
pub open spec fn hex_digit(n: int) -> char {
    if n == 0 {
        '0'
    } else if n == 1 {
        '1'
    } else if n == 2 {
        '2'
    } else if n == 3 {
        '3'
    } else if n == 4 {
        '4'
    } else if n == 5 {
        '5'
    } else if n == 6 {
        '6'
    } else if n == 7 {
        '7'
    } else if n == 8 {
        '8'
    } else if n == 9 {
        '9'
    } else if n == 10 {
        'a'
    } else if n == 11 {
        'b'
    } else if n == 12 {
        'c'
    } else if n == 13 {
        'd'
    } else if n == 14 {
        'e'
    } else {
        'f'
    }
}

/// The two lowercase hex digits of one byte, high nibble first.
pub open spec fn spec_hex_pair(b: u8) -> Seq<char> {
    seq![hex_digit(b as int / 16), hex_digit(b as int % 16)]
}

/// The lowercase hex rendering of a byte sequence: two digits per byte, in
/// byte order.
pub open spec fn spec_hex(s: Seq<u8>) -> Seq<char>
    decreases s.len(),
{
    if s.len() == 0 {
        Seq::empty()
    } else {
        spec_hex(s.drop_last()) + spec_hex_pair(s.last())
    }
}

/// The hex rendering is exactly twice as long as the input.
pub proof fn lemma_spec_hex_len(s: Seq<u8>)
    ensures
        spec_hex(s).len() == 2 * s.len(),
    decreases s.len(),
{
    if s.len() > 0 {
        lemma_spec_hex_len(s.drop_last());
    }
}

/// Appends the lowercase hex digit of one value below 16.
fn append_hex_digit(s: &mut String, n: u8)
    requires
        n < 16,
    ensures
        final(s)@ == old(s)@ + seq![hex_digit(n as int)],
{
    if n == 0 {
        s.append("0");
        proof {
            reveal_strlit("0");
            assert(s@ =~= old(s)@ + seq![hex_digit(n as int)]);
        }
    } else if n == 1 {
        s.append("1");
        proof {
            reveal_strlit("1");
            assert(s@ =~= old(s)@ + seq![hex_digit(n as int)]);
        }
    } else if n == 2 {
        s.append("2");
        proof {
            reveal_strlit("2");
            assert(s@ =~= old(s)@ + seq![hex_digit(n as int)]);
        }
    } else if n == 3 {
        s.append("3");
        proof {
            reveal_strlit("3");
            assert(s@ =~= old(s)@ + seq![hex_digit(n as int)]);
        }
    } else if n == 4 {
        s.append("4");
        proof {
            reveal_strlit("4");
            assert(s@ =~= old(s)@ + seq![hex_digit(n as int)]);
        }
    } else if n == 5 {
        s.append("5");
        proof {
            reveal_strlit("5");
            assert(s@ =~= old(s)@ + seq![hex_digit(n as int)]);
        }
    } else if n == 6 {
        s.append("6");
        proof {
            reveal_strlit("6");
            assert(s@ =~= old(s)@ + seq![hex_digit(n as int)]);
        }
    } else if n == 7 {
        s.append("7");
        proof {
            reveal_strlit("7");
            assert(s@ =~= old(s)@ + seq![hex_digit(n as int)]);
        }
    } else if n == 8 {
        s.append("8");
        proof {
            reveal_strlit("8");
            assert(s@ =~= old(s)@ + seq![hex_digit(n as int)]);
        }
    } else if n == 9 {
        s.append("9");
        proof {
            reveal_strlit("9");
            assert(s@ =~= old(s)@ + seq![hex_digit(n as int)]);
        }
    } else if n == 10 {
        s.append("a");
        proof {
            reveal_strlit("a");
            assert(s@ =~= old(s)@ + seq![hex_digit(n as int)]);
        }
    } else if n == 11 {
        s.append("b");
        proof {
            reveal_strlit("b");
            assert(s@ =~= old(s)@ + seq![hex_digit(n as int)]);
        }
    } else if n == 12 {
        s.append("c");
        proof {
            reveal_strlit("c");
            assert(s@ =~= old(s)@ + seq![hex_digit(n as int)]);
        }
    } else if n == 13 {
        s.append("d");
        proof {
            reveal_strlit("d");
            assert(s@ =~= old(s)@ + seq![hex_digit(n as int)]);
        }
    } else if n == 14 {
        s.append("e");
        proof {
            reveal_strlit("e");
            assert(s@ =~= old(s)@ + seq![hex_digit(n as int)]);
        }
    } else {
        s.append("f");
        proof {
            reveal_strlit("f");
            assert(s@ =~= old(s)@ + seq![hex_digit(n as int)]);
        }
    }
}

/// Renders a byte slice as lowercase hex, two digits per byte.
pub fn hex_lower(bytes: &[u8]) -> (r: String)
    ensures
        r@ == spec_hex(bytes@),
        r@.len() == 2 * bytes@.len(),
{
    let mut s = String::new();
    let mut i: usize = 0;
    while i < bytes.len()
        invariant
            i <= bytes@.len(),
            s@ == spec_hex(bytes@.take(i as int)),
        decreases bytes@.len() - i,
    {
        let b = bytes[i];
        assert(b as int / 16 < 16);
        append_hex_digit(&mut s, b / 16);
        append_hex_digit(&mut s, b % 16);
        proof {
            let t = bytes@.take(i as int + 1);
            assert(t.drop_last() =~= bytes@.take(i as int));
            assert(t.last() == bytes@[i as int]);
            assert(s@ =~= spec_hex(t));
        }
        i += 1;
    }
    proof {
        assert(bytes@.take(bytes@.len() as int) =~= bytes@);
        lemma_spec_hex_len(bytes@);
    }
    s
}

/// The `0x`-prefixed four-digit lowercase hex form of a 16-bit value.
pub open spec fn spec_hex16(v: u16) -> Seq<char> {
    seq![
        '0',
        'x',
        hex_digit(v as int / 4096 % 16),
        hex_digit(v as int / 256 % 16),
        hex_digit(v as int / 16 % 16),
        hex_digit(v as int % 16),
    ]
}

/// Formats a 16-bit value as `0x` followed by four lowercase hex digits.
pub fn format_hex16(v: u16) -> (r: String)
    ensures
        r@ == spec_hex16(v),
        r@.len() == 6,
{
    let mut s = String::new();
    s.append("0x");
    proof {
        reveal_strlit("0x");
    }
    append_hex_digit(&mut s, (v / 4096 % 16) as u8);
    append_hex_digit(&mut s, (v / 256 % 16) as u8);
    append_hex_digit(&mut s, (v / 16 % 16) as u8);
    append_hex_digit(&mut s, (v % 16) as u8);
    proof {
        assert(s@ =~= spec_hex16(v));
    }
    s
}

} // verus!
