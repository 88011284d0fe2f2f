//! PKCS#1 type-1 padding as the decoder reads it: at least eleven bytes, and a
//! zero separator somewhere from index two on; the payload follows it.

use vstd::prelude::*;
use crate::bytes::{be_bytes, be_value, is_minimal_be, lemma_be_bytes_of_minimal, lemma_leading_zero};
use crate::error::CryptoError;

verus! {

/// The fewest bytes a padded message can have.
pub const MIN_PADDED_LEN: usize = 11;

/// The index from which the separator is searched for.
pub const SEPARATOR_SEARCH_START: usize = 2;

/// Index of the first zero byte of `m` at or after `i`, or `m.len()` when there is none.
pub open spec fn first_zero_from(m: Seq<u8>, i: int) -> int
    decreases m.len() - i,
{
    if i >= m.len() {
        m.len() as int
    } else if m[i] == 0 {
        i
    } else {
        first_zero_from(m, i + 1)
    }
}

/// The payload of a padded message, or `None` when its structure is invalid.
pub open spec fn unpad_spec(m: Seq<u8>) -> Option<Seq<u8>> {
    if m.len() < MIN_PADDED_LEN {
        None
    } else {
        let j = first_zero_from(m, SEPARATOR_SEARCH_START as int);
        if j >= m.len() {
            None
        } else {
            Some(m.subrange(j + 1, m.len() as int))
        }
    }
}

/// The byte that opens a type-1 block once its leading zero byte is dropped.
pub const BLOCK_TYPE: u8 = 1;

/// The fill byte of a type-1 block.
pub const FILL: u8 = 0xFF;

/// The fewest fill bytes a type-1 block has.
pub const MIN_FILL_LEN: usize = 8;

/// Index of the first byte of `m` at or after `i` that is not a fill byte, or
/// `m.len()` when there is none.
pub open spec fn first_non_fill_from(m: Seq<u8>, i: int) -> int
    decreases m.len() - i,
{
    if i >= m.len() {
        m.len() as int
    } else if m[i] != FILL {
        i
    } else {
        first_non_fill_from(m, i + 1)
    }
}

/// The payload of a recovered message under full type-1 validation: the
/// type byte, then at least eight fill bytes, then the zero separator.
pub open spec fn strict_unpad_spec(m: Seq<u8>) -> Option<Seq<u8>> {
    if m.len() < MIN_PADDED_LEN || m[0] != BLOCK_TYPE {
        None
    } else {
        let j = first_non_fill_from(m, 1);
        if j < m.len() && m[j] == 0 && j >= 1 + MIN_FILL_LEN {
            Some(m.subrange(j + 1, m.len() as int))
        } else {
            None
        }
    }
}

/// The block `00 01 FF..FF 00 p` of `k` bytes that the private-key holder pads `p` into.
pub open spec fn type1_block(p: Seq<u8>, k: nat) -> Seq<u8> {
    seq![0u8, 1u8] + Seq::new((k - 3 - p.len()) as nat, |_i: int| 0xFFu8) + seq![0u8] + p
}

/// Finds the first zero byte of `m` from index two on.
pub fn find_separator(m: &Vec<u8>) -> (r: Option<usize>)
    ensures
        match r {
            Some(j) => j < m@.len() && j as int == first_zero_from(m@, SEPARATOR_SEARCH_START as int),
            None => first_zero_from(m@, SEPARATOR_SEARCH_START as int) >= m@.len(),
        },
{
    let mut i: usize = SEPARATOR_SEARCH_START;
    while i < m.len()
        invariant
            i >= SEPARATOR_SEARCH_START,
            first_zero_from(m@, SEPARATOR_SEARCH_START as int) == first_zero_from(m@, i as int),
        decreases m.len() - i,
    {
        if m[i] == 0 {
            return Some(i);
        }
        i = i + 1;
    }
    None
}

/// Removes the padding of a recovered message and returns its payload.
pub fn strip_padding(m: &Vec<u8>) -> (r: Result<Vec<u8>, CryptoError>)
    ensures
        match unpad_spec(m@) {
            Some(p) => r is Ok && r->Ok_0@ == p,
            None => r == Err::<Vec<u8>, CryptoError>(CryptoError::InvalidPadding),
        },
{
    if m.len() < MIN_PADDED_LEN {
        return Err(CryptoError::InvalidPadding);
    }
    match find_separator(m) {
        None => Err(CryptoError::InvalidPadding),
        Some(j) => {
            let mut out: Vec<u8> = Vec::new();
            let mut i: usize = j + 1;
            while i < m.len()
                invariant
                    j < i <= m@.len(),
                    out@ == m@.subrange(j + 1, i as int),
                decreases m.len() - i,
            {
                out.push(m[i]);
                i = i + 1;
                assert(out@ =~= m@.subrange(j + 1, i as int));
            }
            Ok(out)
        },
    }
}

/// Removes the padding of a recovered message, checking the type byte and
/// the fill bytes as well as the separator.
pub fn strip_padding_strict(m: &Vec<u8>) -> (r: Result<Vec<u8>, CryptoError>)
    ensures
        match strict_unpad_spec(m@) {
            Some(p) => r is Ok && r->Ok_0@ == p,
            None => r == Err::<Vec<u8>, CryptoError>(CryptoError::InvalidPadding),
        },
{
    if m.len() < MIN_PADDED_LEN || m[0] != BLOCK_TYPE {
        return Err(CryptoError::InvalidPadding);
    }
    let mut j: usize = 1;
    while j < m.len() && m[j] == FILL
        invariant
            1 <= j <= m@.len(),
            first_non_fill_from(m@, 1) == first_non_fill_from(m@, j as int),
        decreases m.len() - j,
    {
        j = j + 1;
    }
    if j >= m.len() || m[j] != 0 || j < 1 + MIN_FILL_LEN {
        return Err(CryptoError::InvalidPadding);
    }
    let mut out: Vec<u8> = Vec::new();
    let mut i: usize = j + 1;
    while i < m.len()
        invariant
            j < i <= m@.len(),
            out@ == m@.subrange(j + 1, i as int),
        decreases m.len() - i,
    {
        out.push(m[i]);
        i = i + 1;
        assert(out@ =~= m@.subrange(j + 1, i as int));
    }
    Ok(out)
}

proof fn lemma_first_non_fill_bounds(m: Seq<u8>, i: int)
    requires
        0 <= i <= m.len(),
    ensures
        i <= first_non_fill_from(m, i) <= m.len(),
        forall|k: int| i <= k < first_non_fill_from(m, i) ==> m[k] == FILL,
    decreases m.len() - i,
{
    if i < m.len() && m[i] == FILL {
        lemma_first_non_fill_bounds(m, i + 1);
    }
}

proof fn lemma_first_non_fill_at(m: Seq<u8>, i: int, j: int)
    requires
        i <= j < m.len(),
        m[j] != FILL,
        forall|k: int| i <= k < j ==> m[k] == FILL,
    ensures
        first_non_fill_from(m, i) == j,
    decreases j - i,
{
    if i < j {
        lemma_first_non_fill_at(m, i + 1, j);
    }
}

/// Whatever the full validation accepts, the separator search accepts too,
/// and both take the same payload from it.
pub proof fn lemma_strict_agrees(m: Seq<u8>)
    requires
        strict_unpad_spec(m) is Some,
    ensures
        unpad_spec(m) == strict_unpad_spec(m),
{
    lemma_first_non_fill_bounds(m, 1);
    let j = first_non_fill_from(m, 1);
    assert forall|k: int| 2 <= k < j implies m[k] != 0 by {
        assert(m[k] == FILL);
    }
    lemma_first_zero_at(m, 2, j);
}

proof fn lemma_first_zero_at(m: Seq<u8>, i: int, j: int)
    requires
        i <= j < m.len(),
        m[j] == 0,
        forall|k: int| i <= k < j ==> m[k] != 0,
    ensures
        first_zero_from(m, i) == j,
    decreases j - i,
{
    if i < j {
        lemma_first_zero_at(m, i + 1, j);
    }
}

/// A payload that leaves room for eight fill bytes, padded into a block of at
/// least twelve bytes and recovered as the shortest big-endian form of that
/// block's value, passes the full type-1 validation with its payload intact.
pub proof fn lemma_type1_block_unpads_strict(p: Seq<u8>, k: nat)
    requires
        p.len() + 11 <= k,
        k >= 12,
    ensures
        strict_unpad_spec(be_bytes(be_value(type1_block(p, k)))) == Some(p),
{
    let f = (k - 3 - p.len()) as nat;
    let fill = Seq::new(f, |_i: int| 0xFFu8);
    let rest = seq![1u8] + fill + seq![0u8] + p;
    let block = type1_block(p, k);
    assert(block =~= seq![0u8] + rest);
    lemma_leading_zero(rest);
    assert(rest[0] == 1u8);
    assert(is_minimal_be(rest));
    lemma_be_bytes_of_minimal(rest);
    let sep = f as int + 1;
    assert(rest[sep] == 0u8);
    assert forall|i: int| 1 <= i < sep implies rest[i] == FILL by {
        assert(rest[i] == fill[i - 1]);
    }
    lemma_first_non_fill_at(rest, 1, sep);
    assert(rest.subrange(sep + 1, rest.len() as int) =~= p);
}

/// The same block passes the separator search too, with the same payload.
pub proof fn lemma_type1_block_unpads(p: Seq<u8>, k: nat)
    requires
        p.len() + 11 <= k,
        k >= 12,
    ensures
        unpad_spec(be_bytes(be_value(type1_block(p, k)))) == Some(p),
{
    lemma_type1_block_unpads_strict(p, k);
    lemma_strict_agrees(be_bytes(be_value(type1_block(p, k))));
}

} // verus!
