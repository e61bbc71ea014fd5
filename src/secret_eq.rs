//! Constant-time comparison of secret byte strings.

use vstd::prelude::*;

verus! {

/// Compares two byte strings without an early exit on the first differing
/// byte: the time taken depends on the lengths only, never on the contents.
pub fn secrets_equal(a: &[u8], b: &[u8]) -> (r: bool)
    ensures
        r == (a@ == b@),
{
    if a.len() != b.len() {
        return false;
    }
    let mut diff: u8 = 0;
    let mut i: usize = 0;
    assert(a@.subrange(0, 0) =~= b@.subrange(0, 0));
    while i < a.len()
        invariant
            a@.len() == b@.len(),
            i <= a@.len(),
            (diff == 0) == (a@.subrange(0, i as int) == b@.subrange(0, i as int)),
        decreases a@.len() - i,
    {
        let x: u8 = a[i];
        let y: u8 = b[i];
        let next: u8 = diff | (x ^ y);
        assert(next == 0 <==> (diff == 0 && x == y)) by (bit_vector)
            requires
                next == diff | (x ^ y),
        ;
        proof {
            let sa = a@.subrange(0, i as int);
            let sb = b@.subrange(0, i as int);
            assert(a@.subrange(0, i + 1) =~= sa.push(x));
            assert(b@.subrange(0, i + 1) =~= sb.push(y));
            if sa == sb && x == y {
                assert(sa.push(x) =~= sb.push(y));
            }
            if sa.push(x) == sb.push(y) {
                assert(sa =~= sa.push(x).drop_last());
                assert(sb =~= sb.push(y).drop_last());
                assert(sa.push(x)[i as int] == x);
                assert(sb.push(y)[i as int] == y);
            }
        }
        diff = next;
        i = i + 1;
    }
    assert(a@.subrange(0, a@.len() as int) =~= a@);
    assert(b@.subrange(0, b@.len() as int) =~= b@);
    diff == 0
}

} // verus!
