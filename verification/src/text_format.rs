//! Decimal formatting for the display.
//!
//! The timer prints minute counts right-aligned in a 3-character field,
//! padded with spaces on the left; a number of 4 or more digits simply
//! takes its full width.
use vstd::prelude::*;

verus! {

/// The decimal digits of `n`, most significant first, as display bytes.
pub open spec fn spec_decimal_digits(n: nat) -> Seq<u8>
    decreases n,
{
    if n < 10 {
        seq![(0x30 + n) as u8]
    } else {
        spec_decimal_digits(n / 10) + seq![(0x30 + n % 10) as u8]
    }
}

/// `n` in decimal, right-aligned in at least 3 characters with spaces.
pub open spec fn spec_right_aligned_3(n: nat) -> Seq<u8> {
    if n < 10 {
        seq![0x20u8, 0x20u8] + spec_decimal_digits(n)
    } else if n < 100 {
        seq![0x20u8] + spec_decimal_digits(n)
    } else {
        spec_decimal_digits(n)
    }
}

/// The decimal digits of `n`, most significant first.
fn decimal_digits(n: u32) -> (v: Vec<u8>)
    ensures
        v@ == spec_decimal_digits(n as nat),
    decreases n,
{
    if n < 10 {
        let mut v: Vec<u8> = Vec::new();
        v.push(0x30 + n as u8);
        proof {
            assert(v@ =~= spec_decimal_digits(n as nat));
        }
        v
    } else {
        let mut v = decimal_digits(n / 10);
        v.push(0x30 + (n % 10) as u8);
        proof {
            assert(v@ =~= spec_decimal_digits(n as nat));
        }
        v
    }
}

/// `n` in decimal, right-aligned in at least 3 characters with spaces.
pub fn format_right_aligned_3(n: u32) -> (v: Vec<u8>)
    ensures
        v@ == spec_right_aligned_3(n as nat),
{
    let mut v: Vec<u8> = Vec::new();
    if n < 10 {
        v.push(0x20);
        v.push(0x20);
    } else if n < 100 {
        v.push(0x20);
    }
    let digits = decimal_digits(n);
    let k = digits.len();
    proof {
        assert(v@ =~= spec_padding(n as nat) + digits@.subrange(0, 0));
    }
    let mut i: usize = 0;
    while i < k
        invariant
            i <= k,
            k == digits@.len(),
            digits@ == spec_decimal_digits(n as nat),
            v@ == spec_padding(n as nat) + digits@.subrange(0, i as int),
        decreases k - i,
    {
        let b = digits[i];
        v.push(b);
        i += 1;
        proof {
            assert(v@ =~= spec_padding(n as nat) + digits@.subrange(0, i as int));
        }
    }
    proof {
        assert(digits@.subrange(0, k as int) =~= digits@);
        assert(v@ =~= spec_right_aligned_3(n as nat));
    }
    v
}

/// The space padding in front of the digits of `n`.
pub open spec fn spec_padding(n: nat) -> Seq<u8> {
    if n < 10 {
        seq![0x20u8, 0x20u8]
    } else if n < 100 {
        seq![0x20u8]
    } else {
        Seq::empty()
    }
}

} // verus!
