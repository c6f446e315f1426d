//! The order of texts, by which mime types and the keys of helper processes
//! are ordered: the first character in which two texts differ decides, and a
//! text stands before each text that continues it.

use vstd::prelude::*;
use vstd::string::*;

verus! {

/// Whether `a` stands before `b`, where only the characters from position
/// `from` on are looked at.
pub open spec fn before_from(a: Seq<char>, b: Seq<char>, from: int) -> bool
    decreases a.len() - from,
{
    if from < 0 || from >= b.len() {
        false
    } else if from >= a.len() {
        true
    } else if a[from] != b[from] {
        (a[from] as u32) < (b[from] as u32)
    } else {
        before_from(a, b, from + 1)
    }
}

/// Whether `a` stands before `b` in the order of texts.
pub open spec fn text_before(a: Seq<char>, b: Seq<char>) -> bool {
    before_from(a, b, 0)
}

/// Tells whether `a` stands before `b` in the order of texts.
pub fn precedes(a: &str, b: &str) -> (before: bool)
    ensures
        before == text_before(a@, b@),
{
    let n = a.unicode_len();
    let m = b.unicode_len();
    let mut i: usize = 0;
    while i < n && i < m
        invariant
            i <= n,
            i <= m,
            n == a@.len(),
            m == b@.len(),
            text_before(a@, b@) == before_from(a@, b@, i as int),
        decreases n - i,
    {
        let x = a.get_char(i);
        let y = b.get_char(i);
        if x != y {
            return (x as u32) < (y as u32);
        }
        i += 1;
    }
    i < m
}

/// From any position on, two texts stand in one way to each other at most.
proof fn lemma_one_way_from(a: Seq<char>, b: Seq<char>, from: int)
    requires
        0 <= from,
    ensures
        !(before_from(a, b, from) && before_from(b, a, from)),
    decreases a.len() - from,
{
    if from < a.len() && from < b.len() && a[from] == b[from] {
        lemma_one_way_from(a, b, from + 1);
    }
}

/// Two texts that agree up to a position and do not stand before each other
/// from there on are the same text.
proof fn lemma_same_from(a: Seq<char>, b: Seq<char>, from: int)
    requires
        0 <= from <= a.len(),
        from <= b.len(),
        forall|j: int| 0 <= j < from ==> a[j] == b[j],
        !before_from(a, b, from),
        !before_from(b, a, from),
    ensures
        a == b,
    decreases a.len() - from,
{
    if from < a.len() && from < b.len() {
        let code = a[from] as u32;
        vstd::utf8::char_u32_cast(a[from], code);
        vstd::utf8::char_u32_cast(b[from], code);
        assert forall|j: int| 0 <= j < from + 1 implies a[j] == b[j] by {
            if j < from {
                assert(a[j] == b[j]);
            }
        }
        lemma_same_from(a, b, from + 1);
    } else {
        assert(a =~= b);
    }
}

/// From any position on, the order goes on from one text over a second to a
/// third.
proof fn lemma_goes_on_from(a: Seq<char>, b: Seq<char>, c: Seq<char>, from: int)
    requires
        0 <= from,
        before_from(a, b, from),
        before_from(b, c, from),
    ensures
        before_from(a, c, from),
    decreases a.len() - from,
{
    if from < a.len() && a[from] == b[from] && b[from] == c[from] {
        lemma_goes_on_from(a, b, c, from + 1);
    }
}

/// No text stands before itself, and of two texts at most one stands before
/// the other.
pub proof fn lemma_text_order_is_strict(a: Seq<char>, b: Seq<char>)
    ensures
        !text_before(a, a),
        !(text_before(a, b) && text_before(b, a)),
{
    lemma_one_way_from(a, a, 0);
    lemma_one_way_from(a, b, 0);
}

/// Of two different texts one stands before the other.
pub proof fn lemma_text_order_is_total(a: Seq<char>, b: Seq<char>)
    ensures
        text_before(a, b) || text_before(b, a) || a == b,
{
    if !text_before(a, b) && !text_before(b, a) {
        lemma_same_from(a, b, 0);
    }
}

/// A text that stands before a second stands before each text that the
/// second stands before.
pub proof fn lemma_text_order_goes_on(a: Seq<char>, b: Seq<char>, c: Seq<char>)
    requires
        text_before(a, b),
        text_before(b, c),
    ensures
        text_before(a, c),
{
    lemma_goes_on_from(a, b, c, 0);
}

} // verus!
