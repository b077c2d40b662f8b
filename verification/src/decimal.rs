//! Decimal text of integers, as `to_string` writes it.
use vstd::prelude::*;

verus! {

/// The character of the decimal digit `d`.
pub open spec fn digit_char(d: nat) -> char
    recommends
        d < 10,
{
    ((d + 48) as u32) as char
}

/// The decimal digits of `n`, most significant first, without leading zeros.
pub open spec fn nat_text(n: nat) -> Seq<char>
    decreases n,
{
    if n < 10 {
        seq![digit_char(n)]
    } else {
        nat_text(n / 10).push(digit_char(n % 10))
    }
}

/// The decimal text of `n`: a minus sign before the digits of a negative number.
pub open spec fn int_text(n: int) -> Seq<char> {
    if n < 0 {
        seq!['-'] + nat_text((-n) as nat)
    } else {
        nat_text(n as nat)
    }
}

fn digit_str(d: u64) -> (r: &'static str)
    requires
        d < 10,
    ensures
        r@ == seq![digit_char(d as nat)],
{
    let digits = "0123456789";
    proof {
        reveal_strlit("0123456789");
    }
    let r = digits.substring_ascii(d as usize, (d + 1) as usize);
    assert(r@ =~= seq![digit_char(d as nat)]);
    r
}

/// The decimal text of `n`.
pub fn u64_text(n: u64) -> (r: String)
    ensures
        r@ == nat_text(n as nat),
    decreases n,
{
    if n < 10 {
        String::from_str(digit_str(n))
    } else {
        let mut r = u64_text(n / 10);
        r.append(digit_str(n % 10));
        r
    }
}

/// The decimal text of `n`, as `n.to_string()` writes it.
pub fn i32_text(n: i32) -> (r: String)
    ensures
        r@ == int_text(n as int),
{
    if n < 0 {
        let magnitude: u64 = (-(n as i64)) as u64;
        let digits = u64_text(magnitude);
        let mut r = String::from_str("-");
        proof {
            reveal_strlit("-");
        }
        r.append(digits.as_str());
        r
    } else {
        u64_text(n as u64)
    }
}

/// A decimal text is one or more digits.
pub proof fn lemma_nat_text_is_digits(n: nat)
    ensures
        nat_text(n).len() >= 1,
        n >= 10 ==> nat_text(n).len() >= 2,
        forall|i: int| 0 <= i < nat_text(n).len() ==> '0' <= #[trigger] nat_text(n)[i] <= '9',
    decreases n,
{
    if n >= 10 {
        lemma_nat_text_is_digits(n / 10);
    }
}

proof fn lemma_digit_char_injective(a: nat, b: nat)
    requires
        a < 10,
        b < 10,
        digit_char(a) == digit_char(b),
    ensures
        a == b,
{
}

/// Distinct natural numbers have distinct decimal texts.
pub proof fn lemma_nat_text_injective(a: nat, b: nat)
    requires
        nat_text(a) == nat_text(b),
    ensures
        a == b,
    decreases a,
{
    lemma_nat_text_is_digits(a);
    lemma_nat_text_is_digits(b);
    if a < 10 && b < 10 {
        assert(nat_text(a)[0] == nat_text(b)[0]);
        lemma_digit_char_injective(a, b);
    } else if a >= 10 && b >= 10 {
        let ta = nat_text(a);
        let tb = nat_text(b);
        assert(ta.drop_last() == nat_text(a / 10));
        assert(tb.drop_last() == nat_text(b / 10));
        lemma_nat_text_injective(a / 10, b / 10);
        assert(ta.last() == tb.last());
        lemma_digit_char_injective(a % 10, b % 10);
    }
}

/// Distinct integers have distinct decimal texts: the text names the number.
pub proof fn lemma_int_text_injective(a: int, b: int)
    requires
        int_text(a) == int_text(b),
    ensures
        a == b,
{
    if a < 0 && b < 0 {
        assert(int_text(a).drop_first() == nat_text((-a) as nat));
        assert(int_text(b).drop_first() == nat_text((-b) as nat));
        lemma_nat_text_injective((-a) as nat, (-b) as nat);
    } else if a >= 0 && b >= 0 {
        lemma_nat_text_injective(a as nat, b as nat);
    } else if a < 0 {
        lemma_nat_text_is_digits(b as nat);
        assert(int_text(a)[0] == '-');
        assert('0' <= int_text(b)[0] <= '9');
    } else {
        lemma_nat_text_is_digits(a as nat);
        assert(int_text(b)[0] == '-');
        assert('0' <= int_text(a)[0] <= '9');
    }
}

/// The value of a decimal digit character.
pub open spec fn digit_value(c: char) -> int {
    (c as int) - ('0' as int)
}

/// The number that a sequence of decimal digits denotes, most significant first.
pub open spec fn text_value(s: Seq<char>) -> int
    decreases s.len(),
{
    if s.len() == 0 {
        0
    } else {
        text_value(s.drop_last()) * 10 + digit_value(s.last())
    }
}

/// The decimal text of `n` denotes `n`, and it has no leading zero: it is
/// the one decimal numeral of `n`.
pub proof fn lemma_nat_text_denotes(n: nat)
    ensures
        text_value(nat_text(n)) == n,
        n >= 1 ==> nat_text(n)[0] != '0',
        n == 0 ==> nat_text(n) == seq!['0'],
        nat_text(n).len() >= 1,
        forall|i: int| 0 <= i < nat_text(n).len() ==> '0' <= #[trigger] nat_text(n)[i] <= '9',
    decreases n,
{
    lemma_nat_text_is_digits(n);
    if n < 10 {
        assert(nat_text(n).drop_last() =~= Seq::<char>::empty());
        assert(text_value(Seq::<char>::empty()) == 0);
        assert(digit_value(digit_char(n)) == n);
        if n == 0 {
            assert(nat_text(n) =~= seq!['0']);
        }
    } else {
        lemma_nat_text_denotes(n / 10);
        let t = nat_text(n);
        assert(t.drop_last() == nat_text(n / 10));
        assert(digit_value(t.last()) == n % 10);
        assert(t[0] == nat_text(n / 10)[0]);
    }
}

/// The decimal text of `n` starts with a minus sign exactly when `n` is
/// negative, and its digits denote the magnitude of `n`.
pub proof fn lemma_int_text_denotes(n: int)
    ensures
        int_text(n).len() >= 1,
        n < 0 ==> int_text(n)[0] == '-' && text_value(int_text(n).drop_first()) == -n,
        n >= 0 ==> int_text(n)[0] != '-' && text_value(int_text(n)) == n,
        n == 0 ==> int_text(n) == seq!['0'],
        n > 0 ==> int_text(n)[0] != '0',
        n < 0 ==> int_text(n).len() >= 2 && int_text(n)[1] != '0',
        forall|i: int|
            (if n < 0 { 1int } else { 0int }) <= i < int_text(n).len() ==> '0' <= #[trigger] int_text(
                n,
            )[i] <= '9',
{
    if n < 0 {
        lemma_nat_text_denotes((-n) as nat);
        assert(int_text(n).drop_first() == nat_text((-n) as nat));
        assert forall|i: int| 1 <= i < int_text(n).len() implies '0' <= #[trigger] int_text(n)[i]
            <= '9' by {
            assert(int_text(n)[i] == nat_text((-n) as nat)[i - 1]);
        }
    } else {
        lemma_nat_text_denotes(n as nat);
        assert('0' <= int_text(n)[0] <= '9');
        if n == 0 {
            assert(int_text(n) =~= seq!['0']);
        }
    }
}

} // verus!
