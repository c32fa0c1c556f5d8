//! Rendering a second count as `H:MM:SS`: hours unpadded, minutes and
//! seconds zero-padded to two digits.

use vstd::prelude::*;
use vstd::string::StringExecFns;

use crate::SECS_PER_HOUR;
use crate::SECS_PER_MINUTE;

verus! {

/// The character for a single decimal digit.
pub open spec fn digit_char(d: nat) -> char {
    if d == 0 {
        '0'
    } else if d == 1 {
        '1'
    } else if d == 2 {
        '2'
    } else if d == 3 {
        '3'
    } else if d == 4 {
        '4'
    } else if d == 5 {
        '5'
    } else if d == 6 {
        '6'
    } else if d == 7 {
        '7'
    } else if d == 8 {
        '8'
    } else {
        '9'
    }
}

/// The decimal digits of `n`, most significant first, with no leading
/// zero except for `n == 0` itself.
pub open spec fn dec_digits(n: nat) -> Seq<char>
    decreases n,
{
    if n < 10 {
        seq![digit_char(n)]
    } else {
        dec_digits(n / 10).push(digit_char(n % 10))
    }
}

/// `n` rendered as exactly two digits, zero-padded; meaningful for
/// `n < 100`.
pub open spec fn two_digits(n: nat) -> Seq<char> {
    seq![digit_char(n / 10 % 10), digit_char(n % 10)]
}

/// `secs` rendered as `H:MM:SS`.
pub open spec fn format_spec(secs: u32) -> Seq<char> {
    dec_digits(secs as nat / (SECS_PER_HOUR as nat)) + seq![':'] + two_digits(
        secs as nat % (SECS_PER_HOUR as nat) / (SECS_PER_MINUTE as nat),
    ) + seq![':'] + two_digits(secs as nat % (SECS_PER_MINUTE as nat))
}

/// The string for one decimal digit.
fn digit_str(d: u32) -> (r: &'static str)
    requires
        d < 10,
    ensures
        r@ =~= seq![digit_char(d as nat)],
{
    proof {
        reveal_strlit("0");
        reveal_strlit("1");
        reveal_strlit("2");
        reveal_strlit("3");
        reveal_strlit("4");
        reveal_strlit("5");
        reveal_strlit("6");
        reveal_strlit("7");
        reveal_strlit("8");
        reveal_strlit("9");
    }
    match d {
        0 => "0",
        1 => "1",
        2 => "2",
        3 => "3",
        4 => "4",
        5 => "5",
        6 => "6",
        7 => "7",
        8 => "8",
        _ => "9",
    }
}

/// Append the decimal digits of `n` to `out`.
fn push_dec(out: &mut String, n: u32)
    ensures
        final (out)@ == old(out)@ + dec_digits(n as nat),
    decreases n,
{
    if n < 10 {
        out.append(digit_str(n));
    } else {
        push_dec(out, n / 10);
        out.append(digit_str(n % 10));
        proof {
            assert(out@ =~= old(out)@ + dec_digits(n as nat));
        }
    }
}

/// Append `n` as exactly two zero-padded digits to `out`.
fn push_two(out: &mut String, n: u32)
    requires
        n < 100,
    ensures
        final (out)@ == old(out)@ + two_digits(n as nat),
{
    out.append(digit_str(n / 10));
    out.append(digit_str(n % 10));
    proof {
        assert(out@ =~= old(out)@ + two_digits(n as nat));
    }
}

/// Formats seconds as `H:MM:SS`: unpadded hours, then minutes and
/// seconds, each zero-padded to two digits.
pub fn format_secs(secs: u32) -> (r: String)
    ensures
        r@ == format_spec(secs),
{
    let hours = secs / SECS_PER_HOUR;
    proof {
        vstd::arithmetic::div_mod::lemma_fundamental_div_mod(secs as int, SECS_PER_HOUR as int);
    }
    let minutes = (secs - SECS_PER_HOUR * hours) / SECS_PER_MINUTE;
    let seconds = secs % SECS_PER_MINUTE;
    let mut r = String::new();
    push_dec(&mut r, hours);
    r.append(":");
    push_two(&mut r, minutes);
    r.append(":");
    push_two(&mut r, seconds);
    proof {
        reveal_strlit(":");
        assert(r@ =~= format_spec(secs));
    }
    r
}

/// A rendered number is never empty.
proof fn lemma_dec_digits_len(n: nat)
    ensures
        dec_digits(n).len() >= 1,
    decreases n,
{
    if n >= 10 {
        lemma_dec_digits_len(n / 10);
    }
}

/// Distinct digits get distinct characters.
proof fn lemma_digit_char_injective(p: nat, q: nat)
    requires
        p < 10,
        q < 10,
        digit_char(p) == digit_char(q),
    ensures
        p == q,
{
    if p != q {
        assert(digit_char(0) != digit_char(1));
        assert(false);
    }
}

/// Distinct numbers render as distinct digit sequences.
proof fn lemma_dec_digits_injective(m: nat, n: nat)
    requires
        dec_digits(m) == dec_digits(n),
    ensures
        m == n,
    decreases m,
{
    lemma_dec_digits_len(m / 10);
    lemma_dec_digits_len(n / 10);
    if m < 10 && n < 10 {
        assert(dec_digits(m) =~= seq![digit_char(m)]);
        assert(dec_digits(n) =~= seq![digit_char(n)]);
        assert(seq![digit_char(m)][0] == digit_char(m));
        assert(seq![digit_char(n)][0] == digit_char(n));
        assert(dec_digits(m)[0] == dec_digits(n)[0]);
        lemma_digit_char_injective(m, n);
    } else if m < 10 {
        assert(dec_digits(m) =~= seq![digit_char(m)]);
        assert(dec_digits(n) == dec_digits(n / 10).push(digit_char(n % 10)));
        assert(false);
    } else if n < 10 {
        assert(dec_digits(n) =~= seq![digit_char(n)]);
        assert(dec_digits(m) == dec_digits(m / 10).push(digit_char(m % 10)));
        assert(false);
    } else {
        let a = dec_digits(m / 10);
        let b = dec_digits(n / 10);
        assert(a.push(digit_char(m % 10)).last() == digit_char(m % 10));
        assert(b.push(digit_char(n % 10)).last() == digit_char(n % 10));
        assert(a =~= b) by {
            assert(forall|i: int|
                0 <= i < a.len() ==> a.push(digit_char(m % 10))[i] == a[i] && b.push(
                    digit_char(n % 10),
                )[i] == b[i]);
        }
        lemma_dec_digits_injective(m / 10, n / 10);
    }
}

/// The rendering round-trips: two durations that format alike are the
/// same duration, so `H:MM:SS` text recovers the second count exactly.
pub proof fn lemma_format_injective(a: u32, b: u32)
    requires
        format_spec(a) == format_spec(b),
    ensures
        a == b,
{
    let ha = a as nat / (SECS_PER_HOUR as nat);
    let hb = b as nat / (SECS_PER_HOUR as nat);
    let ma = a as nat % (SECS_PER_HOUR as nat) / (SECS_PER_MINUTE as nat);
    let mb = b as nat % (SECS_PER_HOUR as nat) / (SECS_PER_MINUTE as nat);
    let sa = a as nat % (SECS_PER_MINUTE as nat);
    let sb = b as nat % (SECS_PER_MINUTE as nat);
    lemma_dec_digits_len(ha);
    lemma_dec_digits_len(hb);
    assert(format_spec(a) == dec_digits(ha) + seq![':'] + two_digits(ma) + seq![':'] + two_digits(
        sa,
    ));
    assert(format_spec(b) == dec_digits(hb) + seq![':'] + two_digits(mb) + seq![':'] + two_digits(
        sb,
    ));
    assert(two_digits(ma).len() == 2 && two_digits(sa).len() == 2);
    assert(two_digits(mb).len() == 2 && two_digits(sb).len() == 2);
    assert(dec_digits(ha).len() == dec_digits(hb).len());
    let k = dec_digits(ha).len() as int;
    assert(dec_digits(ha) =~= dec_digits(hb)) by {
        assert(forall|i: int|
            0 <= i < k ==> format_spec(a)[i] == dec_digits(ha)[i] && format_spec(b)[i]
                == dec_digits(hb)[i]);
    }
    lemma_dec_digits_injective(ha, hb);
    assert(two_digits(ma) =~= two_digits(mb)) by {
        assert(forall|i: int|
            0 <= i < 2 ==> format_spec(a)[k + 1 + i] == two_digits(ma)[i] && format_spec(b)[k + 1
                + i] == two_digits(mb)[i]);
    }
    assert(two_digits(sa) =~= two_digits(sb)) by {
        assert(forall|i: int|
            0 <= i < 2 ==> format_spec(a)[k + 4 + i] == two_digits(sa)[i] && format_spec(b)[k + 4
                + i] == two_digits(sb)[i]);
    }
    assert(ma == mb) by {
        assert(digit_char(ma / 10 % 10) == digit_char(mb / 10 % 10));
        assert(digit_char(ma % 10) == digit_char(mb % 10));
        assert(ma < 60 && mb < 60);
    }
    assert(sa == sb) by {
        assert(digit_char(sa / 10 % 10) == digit_char(sb / 10 % 10));
        assert(digit_char(sa % 10) == digit_char(sb % 10));
    }
    vstd::arithmetic::div_mod::lemma_fundamental_div_mod(a as int, SECS_PER_HOUR as int);
    vstd::arithmetic::div_mod::lemma_fundamental_div_mod(b as int, SECS_PER_HOUR as int);
    vstd::arithmetic::div_mod::lemma_fundamental_div_mod(
        a as int % (SECS_PER_HOUR as int),
        SECS_PER_MINUTE as int,
    );
    vstd::arithmetic::div_mod::lemma_fundamental_div_mod(
        b as int % (SECS_PER_HOUR as int),
        SECS_PER_MINUTE as int,
    );
    vstd::arithmetic::div_mod::lemma_mod_mod(a as int, SECS_PER_MINUTE as int, 60);
    vstd::arithmetic::div_mod::lemma_mod_mod(b as int, SECS_PER_MINUTE as int, 60);
}

} // verus!
