use vstd::prelude::*;

verus! {

/// Number of decimal digits needed to write `n`; zero takes one digit.
pub open spec fn digit_count(n: nat) -> nat
    decreases n,
{
    if n < 10 {
        1
    } else {
        1 + digit_count(n / 10)
    }
}

/// A number has a single digit exactly when it is below ten.
pub proof fn lemma_digit_count_single(n: nat)
    ensures
        digit_count(n) >= 1,
        digit_count(n) == 1 <==> n < 10,
    decreases n,
{
    if n >= 10 {
        lemma_digit_count_single(n / 10);
    }
}

/// Larger numbers never need fewer digits.
pub proof fn lemma_digit_count_monotonic(a: nat, b: nat)
    requires
        a <= b,
    ensures
        digit_count(a) <= digit_count(b),
    decreases b,
{
    lemma_digit_count_single(a);
    lemma_digit_count_single(b);
    if a >= 10 {
        lemma_digit_count_monotonic(a / 10, b / 10);
    }
}

/// A number that is not zero gains one digit when it is multiplied by
/// ten: the labels of a document grow by one column each time the number
/// of its lines reaches the next power of ten.
pub proof fn lemma_digit_count_times_ten(n: nat)
    requires
        n >= 1,
    ensures
        digit_count(10 * n) == digit_count(n) + 1,
{
    assert((10 * n) / 10 == n);
}

/// A machine word never has more than twenty decimal digits.
pub proof fn lemma_digit_count_bound(n: nat)
    requires
        n <= usize::MAX,
    ensures
        digit_count(n) <= 20,
{
    assert(usize::MAX <= 0xffff_ffff_ffff_ffff);
    reveal_with_fuel(digit_count, 21);
}

/// Counts the decimal digits of `num`.
pub fn number_bit_count(num: usize) -> (count: usize)
    ensures
        count == digit_count(num as nat),
        1 <= count <= 20,
{
    proof {
        lemma_digit_count_bound(num as nat);
        lemma_digit_count_single(num as nat);
    }
    if num == 0 {
        return 1;
    }
    let mut rest: usize = num;
    let mut count: usize = 0;
    while rest >= 10
        invariant
            count + digit_count(rest as nat) == digit_count(num as nat),
            digit_count(num as nat) <= 20,
        decreases rest,
    {
        proof {
            lemma_digit_count_single((rest / 10) as nat);
        }
        rest = rest / 10;
        count = count + 1;
    }
    count + 1
}

} // verus!
