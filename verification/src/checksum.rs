//! The checksum of a line: the sum of its byte values. Two readers that are
//! run over one document agree on its lines if they agree on these sums, which
//! is a cheap thing to compare.

use vstd::prelude::*;
use vstd::string::StringSliceAdditionalSpecFns;

verus! {

/// The sum of the values of `bytes`.
pub open spec fn sum_of(bytes: Seq<u8>) -> nat
    decreases bytes.len(),
{
    if bytes.len() == 0 {
        0
    } else {
        sum_of(bytes.drop_last()) + bytes.last() as nat
    }
}

/// The sum over a prefix is no more than the sum over the whole.
pub proof fn lemma_sum_of_prefix(bytes: Seq<u8>, n: int)
    requires
        0 <= n <= bytes.len(),
    ensures
        sum_of(bytes.take(n)) <= sum_of(bytes),
    decreases bytes.len(),
{
    if n == bytes.len() {
        assert(bytes.take(n) =~= bytes);
    } else {
        assert(bytes.drop_last().take(n) =~= bytes.take(n));
        lemma_sum_of_prefix(bytes.drop_last(), n);
    }
}

/// The sum of the byte values of `line`, or `None` where it is too large for
/// the result.
pub fn byte_sum(line: &str) -> (sum: Option<u64>)
    ensures
        sum_of(line.spec_bytes()) <= u64::MAX ==> sum == Some(sum_of(line.spec_bytes()) as u64),
        sum_of(line.spec_bytes()) > u64::MAX ==> sum is None,
{
    let bytes = line.as_bytes();
    let mut sum: u64 = 0;
    let mut i: usize = 0;
    while i < bytes.len()
        invariant
            bytes@ == line.spec_bytes(),
            i <= bytes.len(),
            sum == sum_of(bytes@.take(i as int)),
        decreases bytes.len() - i,
    {
        proof {
            assert(bytes@.take(i + 1).drop_last() =~= bytes@.take(i as int));
            lemma_sum_of_prefix(bytes@, i + 1);
        }
        match sum.checked_add(bytes[i] as u64) {
            Some(more) => {
                sum = more;
            },
            None => {
                return None;
            },
        }
        i = i + 1;
    }
    proof {
        assert(bytes@.take(i as int) =~= bytes@);
    }
    Some(sum)
}

} // verus!
