use vstd::prelude::*;

verus! {

/// The lower-case hexadecimal digit of value `d`, for `d < 16`.
pub open spec fn hex_char(d: nat) -> char {
    if d < 10 {
        (48 + d) as char
    } else {
        (87 + d) as char
    }
}

/// The digits of `n` in base 16, most significant first, without leading zeros
/// (`0` is the single digit `0`): what `{:x}` prints.
pub open spec fn hex_digits(n: nat) -> Seq<char>
    decreases n,
{
    if n < 16 {
        seq![hex_char(n)]
    } else {
        hex_digits(n / 16).push(hex_char(n % 16))
    }
}

/// The digits of `n` in base 10, most significant first, without leading zeros
/// (`0` is the single digit `0`): what `{}` prints.
pub open spec fn dec_digits(n: nat) -> Seq<char>
    decreases n,
{
    if n < 10 {
        seq![hex_char(n)]
    } else {
        dec_digits(n / 10).push(hex_char(n % 10))
    }
}

/// The value of a digit character in base 16 (also base 10, for `0` to `9`).
pub open spec fn digit_value(c: char) -> int {
    if c as int <= 57 {
        c as int - 48
    } else {
        c as int - 87
    }
}

/// The number that a sequence of digits in base `b` denotes, most significant first.
pub open spec fn digits_value(s: Seq<char>, b: int) -> int
    decreases s.len(),
{
    if s.len() == 0 {
        0
    } else {
        digits_value(s.drop_last(), b) * b + digit_value(s.last())
    }
}

/// Whether every character of `s` is a digit below base `b`: `0`-`9`, then `a`-`f`.
pub open spec fn all_digits(s: Seq<char>, b: nat) -> bool {
    forall|i: int| 0 <= i < s.len() ==> exists|d: nat| d < b && #[trigger] s[i] == hex_char(d)
}

proof fn lemma_digit_value(d: nat)
    requires
        d < 16,
    ensures
        digit_value(hex_char(d)) == d,
{
    if d < 10 {
        assert(((48 + d) as char) as int == 48 + d);
    } else {
        assert(((87 + d) as char) as int == 87 + d);
    }
}

/// `s` is how `{:x}` writes `n`: lower-case hexadecimal digits that denote `n`, at least
/// one, and no leading `0` unless `n` is `0`.
pub open spec fn is_hex_text(s: Seq<char>, n: nat) -> bool {
    &&& s.len() > 0
    &&& all_digits(s, 16)
    &&& digits_value(s, 16) == n
    &&& (n > 0 ==> s[0] != '0')
}

/// `s` is how `{}` writes `n`: decimal digits that denote `n`, at least one, and no
/// leading `0` unless `n` is `0`.
pub open spec fn is_dec_text(s: Seq<char>, n: nat) -> bool {
    &&& s.len() > 0
    &&& all_digits(s, 10)
    &&& digits_value(s, 10) == n
    &&& (n > 0 ==> s[0] != '0')
}

/// The base-16 digits of `n` are lower-case hexadecimal digits that denote `n`, and the
/// first of them is not `0` unless `n` is `0`.
pub proof fn lemma_hex_digits_denote(n: nat)
    ensures
        all_digits(hex_digits(n), 16),
        digits_value(hex_digits(n), 16) == n,
        hex_digits(n).len() > 0,
        n > 0 ==> hex_digits(n)[0] != '0',
    decreases n,
{
    if n < 16 {
        lemma_digit_value(n);
        assert(hex_digits(n) =~= seq![hex_char(n)]);
        assert(hex_digits(n).drop_last() =~= Seq::<char>::empty());
        assert(digits_value(Seq::<char>::empty(), 16) == 0);
        assert(hex_digits(n).last() == hex_char(n));
        assert(digits_value(hex_digits(n), 16) == digits_value(hex_digits(n).drop_last(), 16) * 16 + digit_value(hex_digits(n).last()));
    } else {
        lemma_hex_digits_denote(n / 16);
        lemma_digit_value(n % 16);
        let s = hex_digits(n);
        assert(s.drop_last() =~= hex_digits(n / 16));
        assert(s.last() == hex_char(n % 16));
        assert(digits_value(s, 16) == digits_value(s.drop_last(), 16) * 16 + digit_value(s.last()));
        assert forall|i: int| 0 <= i < s.len() implies exists|d: nat| d < 16 && #[trigger] s[i] == hex_char(d) by {
            if i < s.len() - 1 {
                assert(s[i] == hex_digits(n / 16)[i]);
            } else {
                assert(s[i] == hex_char(n % 16));
            }
        }
        assert(s[0] == hex_digits(n / 16)[0]);
    }
}

/// The base-10 digits of `n` are decimal digits that denote `n`, and the first of them is
/// not `0` unless `n` is `0`.
pub proof fn lemma_dec_digits_denote(n: nat)
    ensures
        all_digits(dec_digits(n), 10),
        digits_value(dec_digits(n), 10) == n,
        dec_digits(n).len() > 0,
        n > 0 ==> dec_digits(n)[0] != '0',
    decreases n,
{
    if n < 10 {
        lemma_digit_value(n);
        assert(dec_digits(n) =~= seq![hex_char(n)]);
        assert(dec_digits(n).drop_last() =~= Seq::<char>::empty());
        assert(digits_value(Seq::<char>::empty(), 10) == 0);
        assert(dec_digits(n).last() == hex_char(n));
        assert(digits_value(dec_digits(n), 10) == digits_value(dec_digits(n).drop_last(), 10) * 10 + digit_value(dec_digits(n).last()));
    } else {
        lemma_dec_digits_denote(n / 10);
        lemma_digit_value(n % 10);
        let s = dec_digits(n);
        assert(s.drop_last() =~= dec_digits(n / 10));
        assert(s.last() == hex_char(n % 10));
        assert(digits_value(s, 10) == digits_value(s.drop_last(), 10) * 10 + digit_value(s.last()));
        assert forall|i: int| 0 <= i < s.len() implies exists|d: nat| d < 10 && #[trigger] s[i] == hex_char(d) by {
            if i < s.len() - 1 {
                assert(s[i] == dec_digits(n / 10)[i]);
            } else {
                assert(s[i] == hex_char(n % 10));
            }
        }
        assert(s[0] == dec_digits(n / 10)[0]);
    }
}

/// Appends the base-16 digits of `n` to `s`.
pub fn push_hex(s: &mut String, n: usize)
    ensures
        final(s)@ == old(s)@ + hex_digits(n as nat),
    decreases n,
{
    if n >= 16 {
        push_hex(s, n / 16);
    }
    s.append(hex_digit(n % 16));
    proof {
        if n >= 16 {
            assert(final(s)@ =~= old(s)@ + hex_digits(n as nat));
        }
    }
}

/// Appends the base-10 digits of `n` to `s`.
pub fn push_decimal(s: &mut String, n: u32)
    ensures
        final(s)@ == old(s)@ + dec_digits(n as nat),
    decreases n,
{
    if n >= 10 {
        push_decimal(s, n / 10);
    }
    s.append(hex_digit((n % 10) as usize));
    proof {
        if n >= 10 {
            assert(final(s)@ =~= old(s)@ + dec_digits(n as nat));
        }
    }
}

/// The one-character string of hexadecimal digit `d`.
fn hex_digit(d: usize) -> (s: &'static str)
    requires
        d < 16,
    ensures
        s@ == seq![hex_char(d as nat)],
{
    if d == 0 {
        proof {
            reveal_strlit("0");
        }
        "0"
    } else if d == 1 {
        proof {
            reveal_strlit("1");
        }
        "1"
    } else if d == 2 {
        proof {
            reveal_strlit("2");
        }
        "2"
    } else if d == 3 {
        proof {
            reveal_strlit("3");
        }
        "3"
    } else if d == 4 {
        proof {
            reveal_strlit("4");
        }
        "4"
    } else if d == 5 {
        proof {
            reveal_strlit("5");
        }
        "5"
    } else if d == 6 {
        proof {
            reveal_strlit("6");
        }
        "6"
    } else if d == 7 {
        proof {
            reveal_strlit("7");
        }
        "7"
    } else if d == 8 {
        proof {
            reveal_strlit("8");
        }
        "8"
    } else if d == 9 {
        proof {
            reveal_strlit("9");
        }
        "9"
    } else if d == 10 {
        proof {
            reveal_strlit("a");
        }
        "a"
    } else if d == 11 {
        proof {
            reveal_strlit("b");
        }
        "b"
    } else if d == 12 {
        proof {
            reveal_strlit("c");
        }
        "c"
    } else if d == 13 {
        proof {
            reveal_strlit("d");
        }
        "d"
    } else if d == 14 {
        proof {
            reveal_strlit("e");
        }
        "e"
    } else {
        proof {
            reveal_strlit("f");
        }
        "f"
    }
}

} // verus!
