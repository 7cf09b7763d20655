//! Decimal rendering of integers, as used in staged file names and in the
//! JSON form of an event record.
use vstd::prelude::*;

verus! {

/// The ASCII character of a decimal digit.
pub open spec fn digit_char(d: nat) -> char {
    if d == 0 { '0' }
    else if d == 1 { '1' }
    else if d == 2 { '2' }
    else if d == 3 { '3' }
    else if d == 4 { '4' }
    else if d == 5 { '5' }
    else if d == 6 { '6' }
    else if d == 7 { '7' }
    else if d == 8 { '8' }
    else { '9' }
}

/// Decimal digits of a natural number, most significant first, no leading zeros.
pub open spec fn nat_text(n: nat) -> Seq<char>
    decreases n,
{
    if n < 10 {
        seq![digit_char(n)]
    } else {
        nat_text(n / 10).push(digit_char(n % 10))
    }
}

/// Decimal text of an integer, with a leading `-` when it is negative.
pub open spec fn int_text(i: int) -> Seq<char> {
    if i < 0 {
        seq!['-'] + nat_text((-i) as nat)
    } else {
        nat_text(i as nat)
    }
}

fn digit_str(d: u64) -> (r: &'static str)
    requires
        d < 10,
    ensures
        r@ == seq![digit_char(d as nat)],
{
    proof {
        reveal_strlit("0");
        reveal_strlit("1");
        reveal_strlit("2");
        reveal_strlit("3");
        reveal_strlit("4");
        reveal_strlit("5");
        reveal_strlit("6");
        reveal_strlit("7");
        reveal_strlit("8");
        reveal_strlit("9");
    }
    if d == 0 { "0" }
    else if d == 1 { "1" }
    else if d == 2 { "2" }
    else if d == 3 { "3" }
    else if d == 4 { "4" }
    else if d == 5 { "5" }
    else if d == 6 { "6" }
    else if d == 7 { "7" }
    else if d == 8 { "8" }
    else { "9" }
}

/// Appends the decimal digits of `n` to `out`.
pub fn push_nat_text(out: &mut String, n: u64)
    ensures
        final(out)@ == old(out)@ + nat_text(n as nat),
    decreases n,
{
    if n >= 10 {
        push_nat_text(out, n / 10);
    }
    out.append(digit_str(n % 10));
    proof {
        if n >= 10 {
            assert(old(out)@ + nat_text(n as nat) =~= old(out)@ + nat_text((n / 10) as nat) + seq![digit_char((n % 10) as nat)]);
        } else {
            assert(nat_text(n as nat) =~= seq![digit_char(n as nat)]);
        }
    }
}

/// Appends the decimal text of `i` to `out`, with a sign when negative.
pub fn push_int_text(out: &mut String, i: i64)
    ensures
        final(out)@ == old(out)@ + int_text(i as int),
{
    if i < 0 {
        proof { reveal_strlit("-"); }
        out.append("-");
        let m: u64 = (-(i as i128)) as u64;
        push_nat_text(out, m);
        assert(old(out)@ + seq!['-'] + nat_text(m as nat) =~= old(out)@ + int_text(i as int));
    } else {
        push_nat_text(out, i as u64);
    }
}

pub proof fn lemma_nat_text_len(n: nat)
    ensures
        nat_text(n).len() >= 1,
        n >= 10 ==> nat_text(n).len() >= 2,
    decreases n,
{
    if n >= 10 {
        lemma_nat_text_len(n / 10);
    }
}

proof fn lemma_digit_char_injective(a: nat, b: nat)
    requires
        a < 10,
        b < 10,
        digit_char(a) == digit_char(b),
    ensures
        a == b,
{
}

/// Distinct natural numbers have distinct decimal texts.
pub proof fn lemma_nat_text_injective(a: nat, b: nat)
    requires
        nat_text(a) == nat_text(b),
    ensures
        a == b,
    decreases a,
{
    lemma_nat_text_len(a);
    lemma_nat_text_len(b);
    if a >= 10 && b >= 10 {
        let ta = nat_text(a);
        let tb = nat_text(b);
        assert(ta.last() == digit_char(a % 10));
        assert(tb.last() == digit_char(b % 10));
        lemma_digit_char_injective(a % 10, b % 10);
        assert(nat_text(a / 10) =~= ta.drop_last());
        assert(nat_text(b / 10) =~= tb.drop_last());
        lemma_nat_text_injective(a / 10, b / 10);
    } else if a < 10 && b < 10 {
        assert(nat_text(a)[0] == digit_char(a));
        assert(nat_text(b)[0] == digit_char(b));
        lemma_digit_char_injective(a, b);
    }
}

/// Distinct integers have distinct decimal texts.
pub proof fn lemma_int_text_injective(a: int, b: int)
    requires
        int_text(a) == int_text(b),
    ensures
        a == b,
{
    lemma_nat_text_first_is_digit(if a < 0 { (-a) as nat } else { a as nat });
    lemma_nat_text_first_is_digit(if b < 0 { (-b) as nat } else { b as nat });
    if a < 0 && b < 0 {
        assert(nat_text((-a) as nat) =~= int_text(a).drop_first());
        assert(nat_text((-b) as nat) =~= int_text(b).drop_first());
        lemma_nat_text_injective((-a) as nat, (-b) as nat);
    } else if a >= 0 && b >= 0 {
        lemma_nat_text_injective(a as nat, b as nat);
    } else {
        assert(int_text(a)[0] != int_text(b)[0]);
    }
}

proof fn lemma_nat_text_first_is_digit(n: nat)
    ensures
        nat_text(n).len() >= 1,
        nat_text(n)[0] != '-',
    decreases n,
{
    if n >= 10 {
        lemma_nat_text_first_is_digit(n / 10);
    }
}

} // verus!
