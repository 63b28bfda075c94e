//! Small facts about duplicate-free sequences, shared by the pool and the
//! registry.

use vstd::prelude::*;

verus! {

/// Pushing a fresh element keeps a sequence duplicate-free.
pub(crate) proof fn lemma_push_keeps_no_duplicates<A>(s: Seq<A>, x: A)
    requires
        s.no_duplicates(),
        !s.contains(x),
    ensures
        s.push(x).no_duplicates(),
{
    let t = s.push(x);
    assert forall|i: int, j: int| 0 <= i < t.len() && 0 <= j < t.len() && i != j implies t[i]
        != t[j] by {
        if i < s.len() && j < s.len() {
            assert(t[i] == s[i] && t[j] == s[j]);
        } else if i == s.len() {
            assert(t[i] == x && t[j] == s[j]);
            assert(s.contains(s[j]));
        } else {
            assert(t[j] == x && t[i] == s[i]);
            assert(s.contains(s[i]));
        }
    }
}

/// Membership in a sequence with one element pushed.
pub(crate) proof fn lemma_push_contains<A>(s: Seq<A>, x: A, y: A)
    ensures
        s.push(x).contains(y) <==> (s.contains(y) || y == x),
{
    let t = s.push(x);
    if t.contains(y) {
        let k = choose|k: int| 0 <= k < t.len() && t[k] == y;
        if k < s.len() {
            assert(s[k] == y);
        }
    }
    if s.contains(y) {
        let k = choose|k: int| 0 <= k < s.len() && s[k] == y;
        assert(t[k] == y);
    }
    if y == x {
        assert(t[s.len() as int] == y);
    }
}

/// Dropping the last element keeps a sequence duplicate-free.
pub(crate) proof fn lemma_drop_last_no_duplicates<A>(s: Seq<A>)
    requires
        s.len() > 0,
        s.no_duplicates(),
    ensures
        s.drop_last().no_duplicates(),
{
    let t = s.drop_last();
    assert forall|i: int, j: int| 0 <= i < t.len() && 0 <= j < t.len() && i != j implies t[i]
        != t[j] by {
        assert(t[i] == s[i] && t[j] == s[j]);
    }
}

/// An element of a duplicate-free sequence's prefix is an element of the
/// sequence other than its last.
pub(crate) proof fn lemma_drop_last_contains<A>(s: Seq<A>, x: A)
    requires
        s.len() > 0,
        s.no_duplicates(),
        s.drop_last().contains(x),
    ensures
        s.contains(x),
        x != s.last(),
{
    let t = s.drop_last();
    let k = choose|k: int| 0 <= k < t.len() && t[k] == x;
    assert(s[k] == x);
    assert(k != s.len() - 1);
}

} // verus!
