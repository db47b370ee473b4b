//! Decimal rendering of the numbers that appear inside the wire format: the
//! `Content-Length` header value and the port in a reconstructed URL.
use vstd::prelude::*;

verus! {

/// The decimal digit bytes of `n`, most significant first (`"0"` for zero),
/// without a sign and without leading zeroes.
pub open spec fn dec_digits(n: nat) -> Seq<u8>
    decreases n,
{
    if n < 10 {
        seq![(48 + n) as u8]
    } else {
        dec_digits(n / 10) + seq![(48 + n % 10) as u8]
    }
}

/// The number denoted by a sequence of decimal digit bytes, most significant
/// first.
pub open spec fn dec_value(digits: Seq<u8>) -> int
    decreases digits.len(),
{
    if digits.len() == 0 {
        0
    } else {
        dec_value(digits.drop_last()) * 10 + (digits.last() - 48)
    }
}

/// Every byte produced by [`dec_digits`] is an ASCII digit.
pub proof fn lemma_dec_digits_are_digits(n: nat)
    ensures
        forall|i: int| 0 <= i < dec_digits(n).len() ==> 48 <= #[trigger] dec_digits(n)[i] <= 57,
    decreases n,
{
    if n < 10 {
        assert forall|i: int| 0 <= i < dec_digits(n).len() implies 48 <= #[trigger] dec_digits(
            n,
        )[i] <= 57 by {
            assert(dec_digits(n)[i] == (48 + n) as u8);
        }
    } else {
        lemma_dec_digits_are_digits(n / 10);
        let a = dec_digits(n / 10);
        let d = (48 + n % 10) as u8;
        assert forall|i: int| 0 <= i < dec_digits(n).len() implies 48 <= #[trigger] dec_digits(
            n,
        )[i] <= 57 by {
            if i < a.len() {
                assert(dec_digits(n)[i] == a[i]);
            } else {
                assert(dec_digits(n)[i] == d);
            }
        }
    }
}

/// Reading the digit bytes of `n` back as a decimal number yields `n` again:
/// [`dec_digits`] is the exact decimal representation.
pub proof fn lemma_dec_digits_value(n: nat)
    ensures
        dec_value(dec_digits(n)) == n,
    decreases n,
{
    if n < 10 {
        let s = dec_digits(n);
        assert(s.drop_last() =~= Seq::<u8>::empty());
        assert(s.last() == (48 + n) as u8);
        assert(dec_value(s) == dec_value(Seq::<u8>::empty()) * 10 + ((48 + n) - 48));
    } else {
        lemma_dec_digits_value(n / 10);
        let s = dec_digits(n);
        assert(s =~= dec_digits(n / 10) + seq![(48 + n % 10) as u8]);
        assert(s.drop_last() =~= dec_digits(n / 10));
        assert(s.last() == (48 + n % 10) as u8);
        assert(dec_value(s) == (n / 10) * 10 + n % 10);
        assert((n / 10) * 10 + n % 10 == n);
    }
}

/// The decimal digit bytes of `n`, most significant first.
pub fn dec_digit_bytes(n: u64) -> (r: Vec<u8>)
    ensures
        r@ == dec_digits(n as nat),
    decreases n,
{
    if n < 10 {
        let mut v: Vec<u8> = Vec::new();
        v.push(48 + (n as u8));
        assert(v@ =~= dec_digits(n as nat));
        v
    } else {
        let mut v = dec_digit_bytes(n / 10);
        v.push(48 + ((n % 10) as u8));
        assert(v@ =~= dec_digits(n as nat));
        v
    }
}

} // verus!
