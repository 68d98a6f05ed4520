//! Decimal notation of integers, as text.

use vstd::prelude::*;

verus! {

/// The character of the decimal digit `d`.
pub open spec fn digit_char(d: int) -> char {
    if d == 0 {
        '0'
    } else if d == 1 {
        '1'
    } else if d == 2 {
        '2'
    } else if d == 3 {
        '3'
    } else if d == 4 {
        '4'
    } else if d == 5 {
        '5'
    } else if d == 6 {
        '6'
    } else if d == 7 {
        '7'
    } else if d == 8 {
        '8'
    } else {
        '9'
    }
}

/// The digit that `c` stands for; 0 where `c` is no digit.
pub open spec fn digit_value(c: char) -> int {
    if c == '1' {
        1
    } else if c == '2' {
        2
    } else if c == '3' {
        3
    } else if c == '4' {
        4
    } else if c == '5' {
        5
    } else if c == '6' {
        6
    } else if c == '7' {
        7
    } else if c == '8' {
        8
    } else if c == '9' {
        9
    } else {
        0
    }
}

/// The decimal notation of `n`, without sign and without leading zeros.
pub open spec fn decimal(n: nat) -> Seq<char>
    decreases n,
{
    if n < 10 {
        seq![digit_char(n as int)]
    } else {
        decimal(n / 10).push(digit_char((n % 10) as int))
    }
}

/// The decimal notation of `i`, with a minus sign in front where `i` is negative.
pub open spec fn signed_decimal(i: int) -> Seq<char> {
    if i < 0 {
        seq!['-'] + decimal((-i) as nat)
    } else {
        decimal(i as nat)
    }
}

/// The number that a sequence of digits denotes.
pub open spec fn decimal_value(digits: Seq<char>) -> nat
    decreases digits.len(),
{
    if digits.len() == 0 {
        0
    } else {
        (decimal_value(digits.drop_last()) * 10 + digit_value(digits.last())) as nat
    }
}

/// Whether every character of `s` is a decimal digit.
pub open spec fn all_digits(s: Seq<char>) -> bool {
    forall|i: int| 0 <= i < s.len() ==> '0' <= #[trigger] s[i] <= '9'
}

/// The notation of a natural number is a non-empty run of digits.
pub proof fn lemma_decimal_digits(n: nat)
    ensures
        decimal(n).len() >= 1,
        all_digits(decimal(n)),
    decreases n,
{
    if n >= 10 {
        lemma_decimal_digits(n / 10);
    }
}

/// Reading the notation of `n` gives `n` back.
pub proof fn lemma_decimal_value(n: nat)
    ensures
        decimal_value(decimal(n)) == n,
    decreases n,
{
    if n < 10 {
        let s = decimal(n);
        assert(s.drop_last() =~= Seq::<char>::empty());
        assert(decimal_value(s.drop_last()) == 0);
    } else {
        lemma_decimal_value(n / 10);
        let s = decimal(n);
        assert(s.drop_last() =~= decimal(n / 10));
        assert(s.last() == digit_char((n % 10) as int));
    }
}

/// Two natural numbers with the same notation are the same number.
pub proof fn lemma_decimal_injective(a: nat, b: nat)
    requires
        decimal(a) == decimal(b),
    ensures
        a == b,
{
    lemma_decimal_value(a);
    lemma_decimal_value(b);
}

/// Two integers with the same notation are the same integer.
pub proof fn lemma_signed_decimal_injective(a: int, b: int)
    requires
        signed_decimal(a) == signed_decimal(b),
    ensures
        a == b,
{
    if a < 0 {
        lemma_decimal_digits((-a) as nat);
        assert(signed_decimal(a)[0] == '-');
        if b < 0 {
            let da = decimal((-a) as nat);
            let db = decimal((-b) as nat);
            assert(da =~= signed_decimal(a).subrange(1, signed_decimal(a).len() as int));
            assert(db =~= signed_decimal(b).subrange(1, signed_decimal(b).len() as int));
            lemma_decimal_injective((-a) as nat, (-b) as nat);
        } else {
            lemma_decimal_digits(b as nat);
            assert('0' <= decimal(b as nat)[0]);
        }
    } else {
        lemma_decimal_digits(a as nat);
        assert('0' <= decimal(a as nat)[0]);
        if b < 0 {
            lemma_decimal_digits((-b) as nat);
            assert(signed_decimal(b)[0] == '-');
        } else {
            lemma_decimal_injective(a as nat, b as nat);
        }
    }
}

/// The notation of an integer has a minus sign at most in front: from the
/// second character on it holds digits only.
pub proof fn lemma_signed_decimal_shape(i: int)
    ensures
        signed_decimal(i).len() >= 1,
        forall|k: int| 1 <= k < signed_decimal(i).len() ==> '0' <= #[trigger] signed_decimal(i)[k] <= '9',
        i >= 0 ==> '0' <= signed_decimal(i)[0] <= '9',
        i < 0 ==> signed_decimal(i)[0] == '-' && signed_decimal(i).len() >= 2,
{
    if i < 0 {
        lemma_decimal_digits((-i) as nat);
        let d = decimal((-i) as nat);
        assert forall|k: int| 1 <= k < signed_decimal(i).len() implies '0' <= #[trigger] signed_decimal(i)[k] <= '9' by {
            assert(signed_decimal(i)[k] == d[k - 1]);
        }
    } else {
        lemma_decimal_digits(i as nat);
    }
}

/// The one-character text of the decimal digit `d`.
fn digit_text(d: u64) -> (text: &'static str)
    requires
        d < 10,
    ensures
        text@ == seq![digit_char(d as int)],
{
    proof {
        reveal_strlit("0");
        reveal_strlit("1");
        reveal_strlit("2");
        reveal_strlit("3");
        reveal_strlit("4");
        reveal_strlit("5");
        reveal_strlit("6");
        reveal_strlit("7");
        reveal_strlit("8");
        reveal_strlit("9");
    }
    let text = if d == 0 {
        "0"
    } else if d == 1 {
        "1"
    } else if d == 2 {
        "2"
    } else if d == 3 {
        "3"
    } else if d == 4 {
        "4"
    } else if d == 5 {
        "5"
    } else if d == 6 {
        "6"
    } else if d == 7 {
        "7"
    } else if d == 8 {
        "8"
    } else {
        "9"
    };
    assert(text@ =~= seq![digit_char(d as int)]);
    text
}

/// Appends the decimal notation of `n` to `out`.
pub fn push_decimal(out: &mut String, n: u64)
    ensures
        final(out)@ == old(out)@ + decimal(n as nat),
    decreases n,
{
    if n >= 10 {
        push_decimal(out, n / 10);
    }
    out.append(digit_text(n % 10));
    assert(out@ =~= old(out)@ + decimal(n as nat));
}

/// Appends the decimal notation of `i` to `out`, with its sign.
pub fn push_signed_decimal(out: &mut String, i: i64)
    ensures
        final(out)@ == old(out)@ + signed_decimal(i as int),
{
    if i < 0 {
        proof {
            reveal_strlit("-");
        }
        out.append("-");
        // -(i + 1) fits in an i64 for every negative i, so the magnitude is
        // taken from there.
        let below: i64 = -(i + 1);
        let magnitude: u64 = (below as u64) + 1;
        assert(magnitude as int == -(i as int));
        push_decimal(out, magnitude);
        assert(out@ =~= old(out)@ + signed_decimal(i as int));
    } else {
        push_decimal(out, i as u64);
    }
}

/// The decimal notation of `i` as a string of its own.
pub fn to_decimal(i: i64) -> (text: String)
    ensures
        text@ == signed_decimal(i as int),
{
    let mut text = String::new();
    push_signed_decimal(&mut text, i);
    assert(text@ =~= signed_decimal(i as int));
    text
}

} // verus!
