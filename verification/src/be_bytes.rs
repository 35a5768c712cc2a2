use vstd::prelude::*;

verus! {

/// Big-endian unsigned value of a byte sequence: the first byte is the most
/// significant, the empty sequence has value zero.
pub open spec fn be_val(s: Seq<u8>) -> nat
    decreases s.len(),
{
    if s.len() == 0 {
        0
    } else {
        be_val(s.drop_last()) * 256 + s.last() as nat
    }
}

/// 256 raised to the power `n`: the number of distinct values of `n` bytes.
pub open spec fn pow256(n: nat) -> nat
    decreases n,
{
    if n == 0 {
        1
    } else {
        256 * pow256((n - 1) as nat)
    }
}

/// A byte sequence of length `n` has a value below `pow256(n)`.
pub proof fn lemma_be_val_bound(s: Seq<u8>)
    ensures
        be_val(s) < pow256(s.len()),
    decreases s.len(),
{
    if s.len() > 0 {
        lemma_be_val_bound(s.drop_last());
    }
}

/// `pow256` never decreases.
pub proof fn lemma_pow256_le(m: nat, n: nat)
    requires
        m <= n,
    ensures
        pow256(m) <= pow256(n),
    decreases n,
{
    if m < n {
        lemma_pow256_le(m, (n - 1) as nat);
        assert(pow256((n - 1) as nat) <= 256 * pow256((n - 1) as nat)) by (nonlinear_arith)
            requires pow256((n - 1) as nat) >= 0;
    }
}

/// The value of a concatenation: the left part is shifted past the right part.
pub proof fn lemma_be_val_concat(a: Seq<u8>, b: Seq<u8>)
    ensures
        be_val(a + b) == be_val(a) * pow256(b.len()) + be_val(b),
    decreases b.len(),
{
    if b.len() == 0 {
        assert(a + b =~= a);
        assert(pow256(0) == 1);
        assert(be_val(b) == 0);
        assert(be_val(a) * 1 == be_val(a)) by (nonlinear_arith);
    } else {
        lemma_be_val_concat(a, b.drop_last());
        assert((a + b).drop_last() =~= a + b.drop_last());
        assert((a + b).last() == b.last());
        assert(be_val(a + b) == be_val(a) * pow256(b.len()) + be_val(b)) by (nonlinear_arith)
            requires
                be_val(a + b) == be_val(a + b.drop_last()) * 256 + b.last() as nat,
                be_val(a + b.drop_last()) == be_val(a) * pow256((b.len() - 1) as nat)
                    + be_val(b.drop_last()),
                pow256(b.len()) == 256 * pow256((b.len() - 1) as nat),
                be_val(b) == be_val(b.drop_last()) * 256 + b.last() as nat;
    }
}

/// A byte sequence has value zero exactly when every byte is zero.
pub proof fn lemma_be_val_zero_iff(s: Seq<u8>)
    ensures
        be_val(s) == 0 <==> (forall|i: int| 0 <= i < s.len() ==> s[i] == 0),
    decreases s.len(),
{
    if s.len() > 0 {
        lemma_be_val_zero_iff(s.drop_last());
        if be_val(s) == 0 {
            assert(forall|i: int| 0 <= i < s.len() - 1 ==> s[i] == s.drop_last()[i]);
        } else {
            if forall|i: int| 0 <= i < s.len() ==> s[i] == 0 {
                assert(forall|i: int| 0 <= i < s.len() - 1 ==> s.drop_last()[i] == s[i]);
                assert(be_val(s.drop_last()) == 0);
                assert(s.last() == 0);
            }
        }
    }
}

/// The value of two bytes, written out.
pub proof fn lemma_be_val2(b0: u8, b1: u8)
    ensures
        be_val(seq![b0, b1]) == b0 * 0x100 + b1,
{
    reveal_with_fuel(be_val, 4);
    assert(seq![b0, b1].drop_last() =~= seq![b0]);
    assert(seq![b0].drop_last() =~= Seq::<u8>::empty());
    assert(be_val(seq![b0]) == be_val(seq![b0].drop_last()) * 256 + seq![b0].last());
    assert(be_val(seq![b0, b1]) == be_val(seq![b0, b1].drop_last()) * 256 + seq![b0, b1].last());
}

/// The value of three bytes, written out.
pub proof fn lemma_be_val3(b0: u8, b1: u8, b2: u8)
    ensures
        be_val(seq![b0, b1, b2]) == b0 * 0x1_0000 + b1 * 0x100 + b2,
{
    assert(seq![b0, b1, b2].drop_last() =~= seq![b0, b1]);
    lemma_be_val2(b0, b1);
}

/// Reads the bytes `s[start..end]` as one big-endian unsigned integer.
pub fn read_be_u128(s: &Vec<u8>, start: usize, end: usize) -> (r: u128)
    requires
        start <= end <= s@.len(),
        end - start <= 16,
    ensures
        r == be_val(s@.subrange(start as int, end as int)),
{
    let mut acc: u128 = 0;
    let mut i: usize = start;
    proof {
        assert(s@.subrange(start as int, start as int) =~= Seq::<u8>::empty());
    }
    while i < end
        invariant
            start <= i <= end <= s@.len(),
            end - start <= 16,
            acc == be_val(s@.subrange(start as int, i as int)),
        decreases end - i,
    {
        proof {
            let cur = s@.subrange(start as int, i as int);
            lemma_be_val_bound(cur);
            lemma_pow256_le(cur.len(), 15);
            assert(pow256(15) == 0x1_000000000000_000000000000_000000) by {
                reveal_with_fuel(pow256, 16);
            }
            assert(acc * 256 <= (pow256(15) - 1) * 256) by (nonlinear_arith)
                requires acc <= pow256(15) - 1;
            assert(s@.subrange(start as int, i + 1).drop_last()
                =~= s@.subrange(start as int, i as int));
        }
        acc = acc * 256 + (s[i] as u128);
        i = i + 1;
    }
    acc
}

/// Copies the bytes `s[start..end]` into a fresh vector.
pub fn copy_range(s: &Vec<u8>, start: usize, end: usize) -> (r: Vec<u8>)
    requires
        start <= end <= s@.len(),
    ensures
        r@ == s@.subrange(start as int, end as int),
{
    let mut r: Vec<u8> = Vec::new();
    let mut i: usize = start;
    proof {
        assert(s@.subrange(start as int, start as int) =~= Seq::<u8>::empty());
    }
    while i < end
        invariant
            start <= i <= end <= s@.len(),
            r@ == s@.subrange(start as int, i as int),
        decreases end - i,
    {
        r.push(s[i]);
        proof {
            assert(s@.subrange(start as int, i + 1)
                =~= s@.subrange(start as int, i as int).push(s@[i as int]));
        }
        i = i + 1;
    }
    r
}

/// Tests whether every byte of `s[start..end]` is zero.
pub fn range_is_zero(s: &Vec<u8>, start: usize, end: usize) -> (r: bool)
    requires
        start <= end <= s@.len(),
    ensures
        r <==> (forall|i: int| start <= i < end ==> s@[i] == 0),
{
    let mut i: usize = start;
    while i < end
        invariant
            start <= i <= end <= s@.len(),
            forall|j: int| start <= j < i ==> s@[j] == 0,
        decreases end - i,
    {
        if s[i] != 0 {
            return false;
        }
        i = i + 1;
    }
    true
}

} // verus!
