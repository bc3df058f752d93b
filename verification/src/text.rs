//! Verified textual rendering of addresses and sizes.
//!
//! The renderings are a fixed contract: downstream tooling parses or
//! compares these strings, so each is pinned down to the exact character
//! sequence.

use vstd::prelude::*;

verus! {

use vstd::string::StringExecFns;

/// The character for one decimal digit.
pub open spec fn dec_digit_char(d: nat) -> char {
    if d == 0 {
        '0'
    } else if d == 1 {
        '1'
    } else if d == 2 {
        '2'
    } else if d == 3 {
        '3'
    } else if d == 4 {
        '4'
    } else if d == 5 {
        '5'
    } else if d == 6 {
        '6'
    } else if d == 7 {
        '7'
    } else if d == 8 {
        '8'
    } else {
        '9'
    }
}

/// The character for one hexadecimal digit, upper case.
pub open spec fn hex_digit_char(d: nat) -> char {
    if d < 10 {
        dec_digit_char(d)
    } else if d == 10 {
        'A'
    } else if d == 11 {
        'B'
    } else if d == 12 {
        'C'
    } else if d == 13 {
        'D'
    } else if d == 14 {
        'E'
    } else {
        'F'
    }
}

/// The decimal rendering of `n`, most significant digit first, without
/// leading zeros (a single `'0'` for zero).
pub open spec fn dec_text(n: nat) -> Seq<char>
    decreases n,
{
    if n < 10 {
        seq![dec_digit_char(n)]
    } else {
        dec_text(n / 10).push(dec_digit_char(n % 10))
    }
}

/// The `digits`-digit zero-padded upper-case hexadecimal rendering of `v`,
/// most significant digit first.
pub open spec fn hex_text(v: nat, digits: nat) -> Seq<char>
    decreases digits,
{
    if digits == 0 {
        Seq::empty()
    } else {
        hex_text(v / 16, (digits - 1) as nat).push(hex_digit_char(v % 16))
    }
}

/// The `digits`-digit zero-padded binary rendering of `v`, most significant
/// digit first.
pub open spec fn bin_text(v: nat, digits: nat) -> Seq<char>
    decreases digits,
{
    if digits == 0 {
        Seq::empty()
    } else {
        bin_text(v / 2, (digits - 1) as nat).push(
            if v % 2 == 1 {
                '1'
            } else {
                '0'
            },
        )
    }
}

/// An address rendering: `0x`, the zero-padded hexadecimal value, then the
/// zero-padded binary value in parentheses.
pub open spec fn address_text(v: nat, hex_digits: nat, bin_digits: nat) -> Seq<char> {
    seq!['0', 'x'] + hex_text(v, hex_digits) + seq![' ', '('] + bin_text(v, bin_digits) + seq![')']
}

/// A size rendering: the byte count, `byte` or `bytes`, then the bit count
/// in parentheses.
pub open spec fn size_text(bytes: nat, bits: nat) -> Seq<char> {
    dec_text(bytes) + seq![' ', 'b', 'y', 't', 'e'] + (if bytes > 1 {
        seq!['s']
    } else {
        Seq::<char>::empty()
    }) + seq![' ', '('] + dec_text(bits) + seq![' ', 'b', 'i', 't', 's', ')']
}

/// Appends the character for one decimal digit.
fn append_dec_digit(s: &mut String, d: usize)
    requires
        d < 10,
    ensures
        final(s)@ == old(s)@.push(dec_digit_char(d as nat)),
{
    if d == 0 {
        s.append("0");
        proof {
            reveal_strlit("0");
            assert(s@ =~= old(s)@.push('0'));
        }
    } else if d == 1 {
        s.append("1");
        proof {
            reveal_strlit("1");
            assert(s@ =~= old(s)@.push('1'));
        }
    } else if d == 2 {
        s.append("2");
        proof {
            reveal_strlit("2");
            assert(s@ =~= old(s)@.push('2'));
        }
    } else if d == 3 {
        s.append("3");
        proof {
            reveal_strlit("3");
            assert(s@ =~= old(s)@.push('3'));
        }
    } else if d == 4 {
        s.append("4");
        proof {
            reveal_strlit("4");
            assert(s@ =~= old(s)@.push('4'));
        }
    } else if d == 5 {
        s.append("5");
        proof {
            reveal_strlit("5");
            assert(s@ =~= old(s)@.push('5'));
        }
    } else if d == 6 {
        s.append("6");
        proof {
            reveal_strlit("6");
            assert(s@ =~= old(s)@.push('6'));
        }
    } else if d == 7 {
        s.append("7");
        proof {
            reveal_strlit("7");
            assert(s@ =~= old(s)@.push('7'));
        }
    } else if d == 8 {
        s.append("8");
        proof {
            reveal_strlit("8");
            assert(s@ =~= old(s)@.push('8'));
        }
    } else {
        s.append("9");
        proof {
            reveal_strlit("9");
            assert(s@ =~= old(s)@.push('9'));
        }
    }
}

/// Appends the character for one hexadecimal digit, upper case.
fn append_hex_digit(s: &mut String, d: usize)
    requires
        d < 16,
    ensures
        final(s)@ == old(s)@.push(hex_digit_char(d as nat)),
{
    if d < 10 {
        append_dec_digit(s, d);
    } else if d == 10 {
        s.append("A");
        proof {
            reveal_strlit("A");
            assert(s@ =~= old(s)@.push('A'));
        }
    } else if d == 11 {
        s.append("B");
        proof {
            reveal_strlit("B");
            assert(s@ =~= old(s)@.push('B'));
        }
    } else if d == 12 {
        s.append("C");
        proof {
            reveal_strlit("C");
            assert(s@ =~= old(s)@.push('C'));
        }
    } else if d == 13 {
        s.append("D");
        proof {
            reveal_strlit("D");
            assert(s@ =~= old(s)@.push('D'));
        }
    } else if d == 14 {
        s.append("E");
        proof {
            reveal_strlit("E");
            assert(s@ =~= old(s)@.push('E'));
        }
    } else {
        s.append("F");
        proof {
            reveal_strlit("F");
            assert(s@ =~= old(s)@.push('F'));
        }
    }
}

/// Appends the decimal rendering of `n`.
fn append_dec(s: &mut String, n: usize)
    ensures
        final(s)@ == old(s)@ + dec_text(n as nat),
    decreases n,
{
    if n < 10 {
        append_dec_digit(s, n);
        proof {
            assert(s@ =~= old(s)@ + dec_text(n as nat));
        }
    } else {
        append_dec(s, n / 10);
        append_dec_digit(s, n % 10);
        proof {
            assert(s@ =~= old(s)@ + dec_text(n as nat));
        }
    }
}

/// Appends the `digits`-digit zero-padded hexadecimal rendering of `v`.
fn append_hex(s: &mut String, v: usize, digits: usize)
    ensures
        final(s)@ == old(s)@ + hex_text(v as nat, digits as nat),
    decreases digits,
{
    if digits == 0 {
        proof {
            assert(s@ =~= old(s)@ + hex_text(v as nat, 0));
        }
    } else {
        append_hex(s, v / 16, digits - 1);
        append_hex_digit(s, v % 16);
        proof {
            assert(s@ =~= old(s)@ + hex_text(v as nat, digits as nat));
        }
    }
}

/// Appends the `digits`-digit zero-padded binary rendering of `v`.
fn append_bin(s: &mut String, v: usize, digits: usize)
    ensures
        final(s)@ == old(s)@ + bin_text(v as nat, digits as nat),
    decreases digits,
{
    if digits == 0 {
        proof {
            assert(s@ =~= old(s)@ + bin_text(v as nat, 0));
        }
    } else {
        append_bin(s, v / 2, digits - 1);
        if v % 2 == 1 {
            s.append("1");
            proof {
                reveal_strlit("1");
                assert(s@ =~= old(s)@ + bin_text(v as nat, digits as nat));
            }
        } else {
            s.append("0");
            proof {
                reveal_strlit("0");
                assert(s@ =~= old(s)@ + bin_text(v as nat, digits as nat));
            }
        }
    }
}

/// Renders an address value: hexadecimal, then binary in parentheses.
pub fn address_string(v: usize, hex_digits: usize, bin_digits: usize) -> (s: String)
    ensures
        s@ == address_text(v as nat, hex_digits as nat, bin_digits as nat),
{
    let mut s = String::new();
    s.append("0x");
    append_hex(&mut s, v, hex_digits);
    s.append(" (");
    append_bin(&mut s, v, bin_digits);
    s.append(")");
    proof {
        reveal_strlit("0x");
        reveal_strlit(" (");
        reveal_strlit(")");
        assert(s@ =~= address_text(v as nat, hex_digits as nat, bin_digits as nat));
    }
    s
}

/// Renders a size value: the byte count, a `byte`/`bytes` unit, then the
/// bit count in parentheses.
pub fn size_string(bytes: usize, bits: usize) -> (s: String)
    ensures
        s@ == size_text(bytes as nat, bits as nat),
{
    let mut s = String::new();
    append_dec(&mut s, bytes);
    s.append(" byte");
    if bytes > 1 {
        s.append("s");
    }
    s.append(" (");
    append_dec(&mut s, bits);
    s.append(" bits)");
    proof {
        reveal_strlit(" byte");
        reveal_strlit("s");
        reveal_strlit(" (");
        reveal_strlit(" bits)");
        assert(s@ =~= size_text(bytes as nat, bits as nat));
    }
    s
}

} // verus!

