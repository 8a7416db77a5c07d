//! Decimal rendering of counters, for progress lines.

use vstd::prelude::*;

verus! {

/// The decimal digits of `n`, most significant first, as ASCII bytes.
pub open spec fn dec_rep(n: nat) -> Seq<u8>
    decreases n,
{
    if n < 10 {
        seq![(0x30 + n) as u8]
    } else {
        dec_rep(n / 10) + seq![(0x30 + n % 10) as u8]
    }
}

/// Render a number in decimal.
pub fn u64_to_dec(n: u64) -> (r: Vec<u8>)
    ensures
        r@ == dec_rep(n as nat),
{
    let mut digits: Vec<u8> = Vec::new();
    digits.push(0x30 + (n % 10) as u8);
    let mut m: u64 = n / 10;
    proof {
        assert(digits@.reverse() =~= digits@);
        if n >= 10 {
            assert(dec_rep(n as nat) == dec_rep(n as nat / 10) + seq![(0x30 + n as nat % 10) as u8]);
        }
    }
    while m > 0
        invariant
            m == 0 ==> dec_rep(n as nat) == digits@.reverse(),
            m > 0 ==> dec_rep(n as nat) == dec_rep(m as nat) + digits@.reverse(),
        decreases m,
    {
        let ghost old_digits = digits@;
        let ghost old_m = m as nat;
        digits.push(0x30 + (m % 10) as u8);
        m = m / 10;
        proof {
            let d = (0x30 + old_m % 10) as u8;
            assert(digits@ =~= old_digits + seq![d]);
            assert(digits@.reverse() =~= seq![d] + old_digits.reverse());
            if old_m >= 10 {
                assert(dec_rep(old_m) == dec_rep(old_m / 10) + seq![d]);
                assert(dec_rep(old_m) + old_digits.reverse() =~= dec_rep(old_m / 10)
                    + digits@.reverse());
            } else {
                assert(dec_rep(old_m) =~= seq![d]);
                assert(dec_rep(old_m) + old_digits.reverse() =~= digits@.reverse());
            }
        }
    }
    let mut r: Vec<u8> = Vec::new();
    let mut i: usize = digits.len();
    while i > 0
        invariant
            i <= digits@.len(),
            r@ =~= digits@.skip(i as int).reverse(),
        decreases i,
    {
        i = i - 1;
        r.push(digits[i]);
        proof {
            assert(digits@.skip(i as int) =~= seq![digits@[i as int]] + digits@.skip(i + 1));
            assert(digits@.skip(i as int).reverse() =~= digits@.skip(i + 1).reverse() + seq![
                digits@[i as int],
            ]);
        }
    }
    proof {
        assert(digits@.skip(0) =~= digits@);
    }
    r
}

} // verus!
