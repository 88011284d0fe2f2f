//! Big-endian byte strings as natural numbers.

use vstd::prelude::*;

verus! {

/// The natural number that `s` denotes, most significant byte first.
pub open spec fn be_value(s: Seq<u8>) -> nat
    decreases s.len(),
{
    if s.len() == 0 {
        0
    } else {
        be_value(s.drop_last()) * 256 + s.last() as nat
    }
}

/// The shortest big-endian form of `v`; zero is a single zero byte.
pub open spec fn be_bytes(v: nat) -> Seq<u8>
    decreases v,
{
    if v < 256 {
        seq![v as u8]
    } else {
        be_bytes(v / 256).push((v % 256) as u8)
    }
}

/// A big-endian form without leading zero bytes, or the single byte zero.
pub open spec fn is_minimal_be(s: Seq<u8>) -> bool {
    s.len() >= 1 && (s.len() > 1 ==> s[0] != 0)
}

/// A byte string that starts with a nonzero byte denotes a positive number.
pub proof fn lemma_leading_nonzero_positive(s: Seq<u8>)
    requires
        s.len() >= 1,
        s[0] != 0,
    ensures
        be_value(s) > 0,
    decreases s.len(),
{
    if s.len() > 1 {
        lemma_leading_nonzero_positive(s.drop_last());
    }
}

/// The shortest big-endian form of the number a minimal form denotes is that form.
pub proof fn lemma_be_bytes_of_minimal(s: Seq<u8>)
    requires
        is_minimal_be(s),
    ensures
        be_bytes(be_value(s)) == s,
    decreases s.len(),
{
    if s.len() == 1 {
        assert(s.drop_last().len() == 0);
        assert(be_value(s) == s[0] as nat);
        assert(be_bytes(be_value(s)) =~= s);
    } else {
        let t = s.drop_last();
        assert(t[0] == s[0]);
        lemma_leading_nonzero_positive(t);
        lemma_be_bytes_of_minimal(t);
        let v = be_value(s);
        let w = be_value(t);
        let b = s.last() as nat;
        assert(v == w * 256 + b);
        assert(v / 256 == w && v % 256 == b && v >= 256) by (nonlinear_arith)
            requires
                v == w * 256 + b,
                b < 256,
                w > 0,
        ;
        assert(be_bytes(v) =~= t.push(s.last()));
        assert(t.push(s.last()) =~= s);
    }
}

/// Leading zero bytes do not change the number denoted.
pub proof fn lemma_leading_zero(s: Seq<u8>)
    ensures
        be_value(seq![0u8] + s) == be_value(s),
    decreases s.len(),
{
    let z = seq![0u8] + s;
    if s.len() == 0 {
        assert(z.drop_last() =~= Seq::<u8>::empty());
        assert(be_value(z.drop_last()) == 0);
        assert(be_value(z) == be_value(z.drop_last()) * 256 + z.last() as nat);
    } else {
        assert(z.drop_last() =~= seq![0u8] + s.drop_last());
        assert(z.last() == s.last());
        lemma_leading_zero(s.drop_last());
    }
}

} // verus!
