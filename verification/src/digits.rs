use vstd::prelude::*;

verus! {

/// The character for one decimal digit.
pub open spec fn dec_digit_char(d: nat) -> char {
    if d == 0 {
        '0'
    } else if d == 1 {
        '1'
    } else if d == 2 {
        '2'
    } else if d == 3 {
        '3'
    } else if d == 4 {
        '4'
    } else if d == 5 {
        '5'
    } else if d == 6 {
        '6'
    } else if d == 7 {
        '7'
    } else if d == 8 {
        '8'
    } else {
        '9'
    }
}

/// The decimal rendering of `n`, without leading zeros (a single zero for 0).
pub open spec fn dec_str(n: nat) -> Seq<char>
    decreases n,
{
    if n < 10 {
        seq![dec_digit_char(n)]
    } else {
        dec_str(n / 10).push(dec_digit_char(n % 10))
    }
}

/// The low `width` decimal digits of `n`, zero-padded on the left to
/// exactly `width` characters.
pub open spec fn padded_dec(n: nat, width: nat) -> Seq<char>
    decreases width,
{
    if width == 0 {
        Seq::empty()
    } else {
        padded_dec(n / 10, (width - 1) as nat).push(dec_digit_char(n % 10))
    }
}

/// `s` with every trailing '0' removed.
pub open spec fn trim_zeros(s: Seq<char>) -> Seq<char>
    decreases s.len(),
{
    if s.len() > 0 && s.last() == '0' {
        trim_zeros(s.drop_last())
    } else {
        s
    }
}

pub open spec fn pow10(n: nat) -> nat
    decreases n,
{
    if n == 0 {
        1
    } else {
        10 * pow10((n - 1) as nat)
    }
}

/// Trailing zero digits trim away: dropping a final zero digit of `n` and
/// one column of padding leaves the trimmed rendering unchanged.
pub proof fn lemma_trim_shifts_zero(n: nat, width: nat)
    requires
        width > 0,
        n % 10 == 0,
    ensures
        trim_zeros(padded_dec(n, width)) == trim_zeros(padded_dec(n / 10, (width - 1) as nat)),
{
    let inner = padded_dec(n / 10, (width - 1) as nat);
    assert(padded_dec(n, width) == inner.push(dec_digit_char(n % 10)));
    assert(inner.push('0').last() == '0');
    assert(inner.push('0').drop_last() =~= inner);
}

/// A rendering whose last digit is not zero is already trimmed.
pub proof fn lemma_trim_noop(n: nat, width: nat)
    requires
        width > 0,
        n % 10 != 0,
    ensures
        trim_zeros(padded_dec(n, width)) == padded_dec(n, width),
{
    let s = padded_dec(n, width);
    assert(s.last() == dec_digit_char(n % 10));
    assert(dec_digit_char(n % 10) != '0');
}

fn digit_literal(d: u128) -> (s: &'static str)
    requires
        d < 10,
    ensures
        s@ =~= seq![dec_digit_char(d as nat)],
{
    proof {
        reveal_strlit("0");
        reveal_strlit("1");
        reveal_strlit("2");
        reveal_strlit("3");
        reveal_strlit("4");
        reveal_strlit("5");
        reveal_strlit("6");
        reveal_strlit("7");
        reveal_strlit("8");
        reveal_strlit("9");
    }
    if d == 0 {
        "0"
    } else if d == 1 {
        "1"
    } else if d == 2 {
        "2"
    } else if d == 3 {
        "3"
    } else if d == 4 {
        "4"
    } else if d == 5 {
        "5"
    } else if d == 6 {
        "6"
    } else if d == 7 {
        "7"
    } else if d == 8 {
        "8"
    } else {
        "9"
    }
}

/// The decimal rendering of `n`.
pub fn u128_to_dec_string(n: u128) -> (s: String)
    ensures
        s@ == dec_str(n as nat),
    decreases n,
{
    if n < 10 {
        let s = digit_literal(n).to_owned();
        proof {
            assert(s@ =~= dec_str(n as nat));
        }
        s
    } else {
        let mut s = u128_to_dec_string(n / 10);
        s.append(digit_literal(n % 10));
        proof {
            assert(s@ =~= dec_str(n as nat));
        }
        s
    }
}

/// The decimal rendering of `n`.
pub fn u64_to_dec_string(n: u64) -> (s: String)
    ensures
        s@ == dec_str(n as nat),
{
    u128_to_dec_string(n as u128)
}

/// The low `width` digits of `n`, zero-padded on the left to `width`
/// characters.
pub fn padded_dec_string(n: u128, width: usize) -> (s: String)
    ensures
        s@ == padded_dec(n as nat, width as nat),
    decreases width,
{
    if width == 0 {
        let s = String::new();
        proof {
            assert(s@ =~= padded_dec(n as nat, 0));
        }
        s
    } else {
        let mut s = padded_dec_string(n / 10, width - 1);
        s.append(digit_literal(n % 10));
        proof {
            assert(s@ =~= padded_dec(n as nat, width as nat));
        }
        s
    }
}

} // verus!
