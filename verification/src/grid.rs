//! Parts of equal size that stand one after the other: the rows of an image
//! without padding, and the pixels of a row.

use vstd::prelude::*;

verus! {

/// The first `count` parts, one after the other.
pub open spec fn stacked(part: spec_fn(int) -> Seq<u8>, count: nat) -> Seq<u8>
    decreases count,
{
    if count == 0 {
        Seq::empty()
    } else {
        stacked(part, (count - 1) as nat) + part(count - 1)
    }
}

/// Parts of one size, one after the other, take the size of one part for
/// each.
pub proof fn lemma_stacked_len(part: spec_fn(int) -> Seq<u8>, count: nat, size: nat)
    requires
        forall|i: int| 0 <= i < count ==> (#[trigger] part(i)).len() == size,
    ensures
        stacked(part, count).len() == count * size,
    decreases count,
{
    if count > 0 {
        lemma_stacked_len(part, (count - 1) as nat, size);
        assert(part(count - 1).len() == size);
        assert(count * size == (count - 1) * size + size) by (nonlinear_arith);
    } else {
        assert(count * size == 0) by (nonlinear_arith)
            requires
                count == 0,
        ;
    }
}

/// Where parts of one size stand one after the other, part `i` starts after
/// `i` times that size.
pub proof fn lemma_stacked_part(part: spec_fn(int) -> Seq<u8>, count: nat, size: nat, i: int)
    requires
        forall|j: int| 0 <= j < count ==> (#[trigger] part(j)).len() == size,
        0 <= i < count,
    ensures
        0 <= i * size,
        i * size + size <= stacked(part, count).len(),
        stacked(part, count).subrange(i * size, i * size + size) == part(i),
    decreases count,
{
    let above = stacked(part, (count - 1) as nat);
    let last = part(count - 1);
    lemma_stacked_len(part, (count - 1) as nat, size);
    lemma_stacked_len(part, count, size);
    assert(last.len() == size);
    assert(0 <= i * size && i * size + size <= count * size) by (nonlinear_arith)
        requires
            0 <= i < count,
            0 <= size,
    ;
    if i == count - 1 {
        assert((above + last).subrange(i * size, i * size + size) =~= last);
    } else {
        lemma_stacked_part(part, (count - 1) as nat, size, i);
        assert(i * size + size <= (count - 1) * size) by (nonlinear_arith)
            requires
                0 <= i < count - 1,
                0 <= size,
        ;
        assert((above + last).subrange(i * size, i * size + size) =~= above.subrange(
            i * size,
            i * size + size,
        ));
    }
}

/// A piece of a piece is a piece of the whole.
pub proof fn lemma_piece_of_piece(s: Seq<u8>, start: int, len: int, from: int, count: int)
    requires
        0 <= start,
        0 <= len,
        start + len <= s.len(),
        0 <= from,
        0 <= count,
        from + count <= len,
    ensures
        s.subrange(start, start + len).subrange(from, from + count) == s.subrange(
            start + from,
            start + from + count,
        ),
{
    assert(s.subrange(start, start + len).subrange(from, from + count) =~= s.subrange(
        start + from,
        start + from + count,
    ));
}

} // verus!
