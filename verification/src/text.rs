//! Decimal, hexadecimal and boolean rendering used by the library's messages.

use vstd::prelude::*;

verus! {

/// The lower-case digit character for a digit value below sixteen.
pub open spec fn digit_char(d: nat) -> char {
    if d < 10 {
        (('0' as nat) + d) as char
    } else {
        (('a' as nat) + (d - 10)) as char
    }
}

/// Digits of `n` in base `radix`, most significant first, with no leading zero
/// (zero itself is the single digit `0`).
pub open spec fn radix_digits(n: nat, radix: nat) -> Seq<char>
    recommends
        2 <= radix <= 16,
    decreases n,
{
    if radix < 2 || n < radix {
        seq![digit_char(n % 16)]
    } else {
        proof {
            assert(n / radix < n) by (nonlinear_arith)
                requires
                    radix >= 2,
                    n >= radix,
            ;
        }
        radix_digits(n / radix, radix).push(digit_char(n % radix))
    }
}

/// Decimal rendering, as `{}` prints an unsigned integer.
pub open spec fn dec(n: nat) -> Seq<char> {
    radix_digits(n, 10)
}

/// Lower-case hexadecimal rendering, as `{:x}` prints an unsigned integer.
pub open spec fn hex(n: nat) -> Seq<char> {
    radix_digits(n, 16)
}

/// `s` left-padded with `0` up to at least `width` characters.
pub open spec fn zero_pad(s: Seq<char>, width: nat) -> Seq<char> {
    if s.len() >= width {
        s
    } else {
        Seq::new((width - s.len()) as nat, |_i: int| '0') + s
    }
}

/// Zero-padded lower-case hexadecimal, as `{:0Wx}` prints it.
pub open spec fn hex_padded(n: nat, width: nat) -> Seq<char> {
    zero_pad(hex(n), width)
}

/// `true` or `false`, as `{}` prints a `bool`.
pub open spec fn bool_text(b: bool) -> Seq<char> {
    if b {
        seq!['t', 'r', 'u', 'e']
    } else {
        seq!['f', 'a', 'l', 's', 'e']
    }
}

fn digit_str(d: u64) -> (s: &'static str)
    requires
        d < 16,
    ensures
        s@ == seq![digit_char(d as nat)],
{
    proof {
        reveal_strlit("0");
        reveal_strlit("1");
        reveal_strlit("2");
        reveal_strlit("3");
        reveal_strlit("4");
        reveal_strlit("5");
        reveal_strlit("6");
        reveal_strlit("7");
        reveal_strlit("8");
        reveal_strlit("9");
        reveal_strlit("a");
        reveal_strlit("b");
        reveal_strlit("c");
        reveal_strlit("d");
        reveal_strlit("e");
        reveal_strlit("f");
    }
    match d {
        0 => "0",
        1 => "1",
        2 => "2",
        3 => "3",
        4 => "4",
        5 => "5",
        6 => "6",
        7 => "7",
        8 => "8",
        9 => "9",
        10 => "a",
        11 => "b",
        12 => "c",
        13 => "d",
        14 => "e",
        _ => "f",
    }
}

fn push_radix(s: &mut String, n: u64, radix: u64)
    requires
        radix == 10 || radix == 16,
    ensures
        final(s)@ == old(s)@ + radix_digits(n as nat, radix as nat),
    decreases n,
{
    if n >= radix {
        push_radix(s, n / radix, radix);
    }
    s.append(digit_str(n % radix));
    proof {
        if n >= radix {
            assert(radix_digits(n as nat, radix as nat) == radix_digits(
                (n / radix) as nat,
                radix as nat,
            ).push(digit_char((n % radix) as nat)));
        } else {
            assert(n % 16 == n % radix);
        }
    }
}

/// Append the decimal rendering of `n`.
pub fn push_dec(s: &mut String, n: u64)
    ensures
        final(s)@ == old(s)@ + dec(n as nat),
{
    push_radix(s, n, 10);
}

/// Append the lower-case hexadecimal rendering of `n`, padded with zeros to
/// at least `width` characters.
pub fn push_hex_padded(s: &mut String, n: u64, width: u64)
    ensures
        final(s)@ == old(s)@ + hex_padded(n as nat, width as nat),
{
    let len = hex_len(n);
    let ghost start = s@;
    let mut i: u64 = len;
    proof {
        reveal_strlit("0");
    }
    while i < width
        invariant
            len <= i,
            i <= width || i == len,
            len == hex(n as nat).len(),
            s@ == start + Seq::new((i - len) as nat, |_j: int| '0'),
        decreases width - i,
    {
        s.append("0");
        proof {
            reveal_strlit("0");
            assert(s@ =~= start + Seq::new((i + 1 - len) as nat, |_j: int| '0'));
        }
        i = i + 1;
    }
    let ghost padded = s@;
    push_radix(s, n, 16);
    proof {
        if len >= width {
            assert(Seq::new((i - len) as nat, |_j: int| '0') =~= Seq::<char>::empty());
            assert(s@ =~= start + hex(n as nat));
        } else {
            assert(i == width);
            assert(s@ =~= start + (Seq::new((width - len) as nat, |_j: int| '0') + hex(n as nat)));
        }
    }
}

/// Number of hexadecimal digits that `{:x}` prints for `n`.
fn hex_len(n: u64) -> (len: u64)
    ensures
        len as nat == hex(n as nat).len(),
        1 <= len <= 16,
    decreases n,
{
    if n < 16 {
        1
    } else {
        let rest = hex_len(n / 16);
        proof {
            assert(hex(n as nat) == hex((n / 16) as nat).push(digit_char((n % 16) as nat)));
            lemma_hex_len_bound(n as nat);
        }
        rest + 1
    }
}

proof fn lemma_hex_len_bound(n: nat)
    requires
        n < 0x1_0000_0000_0000_0000,
    ensures
        hex(n).len() <= 16,
    decreases n,
{
    if n >= 16 {
        assert(pow16(16) == 0x1_0000_0000_0000_0000) by {
            reveal_with_fuel(pow16, 17);
        }
        lemma_hex_len_bound_k(n, 16);
    }
}

proof fn lemma_hex_len_bound_k(n: nat, k: nat)
    requires
        1 <= k <= 16,
        n < pow16(k),
    ensures
        hex(n).len() <= k,
    decreases k,
{
    if n >= 16 {
        assert(k > 1) by {
            if k == 1 {
                assert(pow16(1) == 16 * pow16(0));
            }
        }
        assert(n / 16 < pow16((k - 1) as nat)) by {
            assert(pow16(k) == 16 * pow16((k - 1) as nat));
        }
        lemma_hex_len_bound_k(n / 16, (k - 1) as nat);
    }
}

spec fn pow16(k: nat) -> nat
    decreases k,
{
    if k == 0 {
        1
    } else {
        16 * pow16((k - 1) as nat)
    }
}

/// Append `true` or `false`.
pub fn push_bool(s: &mut String, b: bool)
    ensures
        final(s)@ == old(s)@ + bool_text(b),
{
    proof {
        reveal_strlit("true");
        reveal_strlit("false");
    }
    if b {
        s.append("true");
    } else {
        s.append("false");
    }
}


/// Decimal rendering of a signed integer, as `{}` prints it.
pub open spec fn int_text(n: int) -> Seq<char> {
    if n < 0 {
        seq!['-'] + dec((-n) as nat)
    } else {
        dec(n as nat)
    }
}

/// Append the decimal rendering of a signed 32-bit integer.
pub fn push_i32(s: &mut String, n: i32)
    ensures
        final(s)@ == old(s)@ + int_text(n as int),
{
    if n < 0 {
        proof {
            reveal_strlit("-");
        }
        s.append("-");
        let magnitude: u64 = (0 - (n as i64)) as u64;
        push_dec(s, magnitude);
        proof {
            assert(final(s)@ =~= old(s)@ + (seq!['-'] + dec((-(n as int)) as nat))) by {
                assert(magnitude as nat == (-(n as int)) as nat);
            }
        }
    } else {
        push_dec(s, n as u64);
    }
}

/// Calls `String::push`. Claimed: afterwards the text is the text before
/// with `c` appended at the end.
#[verifier::external_body]
pub(crate) fn push_char(s: &mut String, c: char)
    ensures
        final(s)@ == old(s)@.push(c),
{
    s.push(c)
}

} // verus!
