//! Address lists kept free of duplicates: membership facts for the list edits
//! (`push`, swap-remove, drop-first) that the precompiles' enumerations use.
use crate::primitives::Address;
use vstd::prelude::*;

verus! {

/// `s` without index `i`: the last element moves into slot `i`.
pub open spec fn swap_removed_at(s: Seq<Address>, i: int) -> Seq<Address> {
    s.update(i, s.last()).drop_last()
}

/// `s` without its occurrence of `x`, the last element moving into its slot.
pub open spec fn swap_removed(s: Seq<Address>, x: Address) -> Seq<Address> {
    swap_removed_at(s, s.index_of(x))
}

pub(crate) proof fn lemma_index_of_unique(s: Seq<Address>, i: int)
    requires
        s.no_duplicates(),
        0 <= i < s.len(),
    ensures
        s.index_of(s[i]) == i,
{
    let j = s.index_of(s[i]);
    assert(0 <= j < s.len() && s[j] == s[i]);
}

pub(crate) proof fn lemma_swap_remove(s: Seq<Address>, i: int)
    requires
        s.no_duplicates(),
        0 <= i < s.len(),
    ensures
        swap_removed_at(s, i).len() == s.len() - 1,
        swap_removed_at(s, i).no_duplicates(),
        forall|x: Address| #[trigger]
            swap_removed_at(s, i).contains(x) <==> (s.contains(x) && x != s[i]),
{
    let r = swap_removed_at(s, i);
    let n = s.len() - 1;
    assert(r.len() == n);
    assert forall|k: int| 0 <= k < n implies #[trigger] r[k] == (if k == i { s[n] } else { s[k] }) by {}
    assert forall|x: Address| #[trigger] r.contains(x) <==> (s.contains(x) && x != s[i]) by {
        if r.contains(x) {
            let k = choose|k: int| 0 <= k < r.len() && r[k] == x;
            if k == i {
                assert(s[n] == x);
            } else {
                assert(s[k] == x);
            }
        }
        if s.contains(x) && x != s[i] {
            let k = choose|k: int| 0 <= k < s.len() && s[k] == x;
            if k == n {
                assert(r[i] == x);
            } else {
                assert(r[k] == x);
            }
        }
    }
    assert forall|a: int, b: int| 0 <= a < r.len() && 0 <= b < r.len() && a != b implies r[a]
        != r[b] by {
        let ia = if a == i { n } else { a };
        let ib = if b == i { n } else { b };
        assert(r[a] == s[ia]);
        assert(r[b] == s[ib]);
    }
}

/// Swap-removing an element that was just pushed onto a list that lacked it gives back
/// the list.
pub(crate) proof fn lemma_swap_remove_pushed(s: Seq<Address>, x: Address)
    requires
        !s.contains(x),
    ensures
        swap_removed(s.push(x), x) == s,
{
    let p = s.push(x);
    assert(p[s.len() as int] == x);
    assert(p.index_of(x) == s.len()) by {
        let k = p.index_of(x);
        assert(0 <= k < p.len() && p[k] == x);
        if k < s.len() {
            assert(s[k] == x);
        }
    }
    assert(swap_removed(p, x) =~= s);
}

pub(crate) proof fn lemma_push_fresh(s: Seq<Address>, x: Address)
    requires
        s.no_duplicates(),
        !s.contains(x),
    ensures
        s.push(x).no_duplicates(),
        forall|y: Address| #[trigger] s.push(x).contains(y) <==> (s.contains(y) || y == x),
{
    let r = s.push(x);
    assert forall|y: Address| #[trigger] r.contains(y) <==> (s.contains(y) || y == x) by {
        if r.contains(y) {
            let k = choose|k: int| 0 <= k < r.len() && r[k] == y;
            if k < s.len() {
                assert(s[k] == y);
            }
        }
        if s.contains(y) {
            let k = choose|k: int| 0 <= k < s.len() && s[k] == y;
            assert(r[k] == y);
        }
        if y == x {
            assert(r[s.len() as int] == y);
        }
    }
    assert forall|a: int, b: int| 0 <= a < r.len() && 0 <= b < r.len() && a != b implies r[a]
        != r[b] by {
        if a == s.len() {
            assert(s[b] == r[b]);
        } else if b == s.len() {
            assert(s[a] == r[a]);
        }
    }
}

pub(crate) proof fn lemma_view_insert<K>(m: Map<K, Vec<Address>>, k: K, v: Vec<Address>)
    ensures
        m.insert(k, v).map_values(|l: Vec<Address>| l@) == m.map_values(|l: Vec<Address>| l@).insert(
            k,
            v@,
        ),
{
    assert(m.insert(k, v).map_values(|l: Vec<Address>| l@) =~= m.map_values(|l: Vec<Address>| l@).insert(
        k,
        v@,
    ));
}

pub(crate) proof fn lemma_index_of_unique_any(s: Seq<Address>, i: int, x: Address)
    requires
        s.no_duplicates(),
        0 <= i < s.len(),
        s[i] == x,
    ensures
        s.index_of(x) == i,
{
    lemma_index_of_unique(s, i);
}

pub(crate) proof fn lemma_drop_first(s: Seq<Address>)
    requires
        s.no_duplicates(),
        s.len() > 0,
    ensures
        s.drop_first().no_duplicates(),
        s.drop_first().len() == s.len() - 1,
        forall|x: Address| #[trigger] s.drop_first().contains(x) <==> (s.contains(x) && x != s[0]),
{
    let r = s.drop_first();
    assert forall|x: Address| #[trigger] r.contains(x) <==> (s.contains(x) && x != s[0]) by {
        if r.contains(x) {
            let k = choose|k: int| 0 <= k < r.len() && r[k] == x;
            assert(s[k + 1] == x);
        }
        if s.contains(x) && x != s[0] {
            let k = choose|k: int| 0 <= k < s.len() && s[k] == x;
            assert(r[k - 1] == x);
        }
    }
    assert forall|a: int, b: int| 0 <= a < r.len() && 0 <= b < r.len() && a != b implies r[a] != r[b] by {
        assert(r[a] == s[a + 1]);
        assert(r[b] == s[b + 1]);
    }
}

/// Index of the first occurrence of `x` in `list`.
pub(crate) fn position_of(list: &Vec<Address>, x: &Address) -> (r: Option<usize>)
    ensures
        r matches Some(i) ==> i < list@.len() && list@[i as int] == *x,
        r is None ==> !list@.contains(*x),
{
    let mut i: usize = 0;
    while i < list.len()
        invariant
            i <= list@.len(),
            forall|j: int| 0 <= j < i ==> list@[j] != *x,
        decreases list@.len() - i,
    {
        if list[i].same(x) {
            return Some(i);
        }
        i = i + 1;
    }
    None
}

/// The elements of `list` from index `from` on.
pub(crate) fn tail_of(list: &Vec<Address>, from: usize) -> (r: Vec<Address>)
    requires
        from <= list@.len(),
    ensures
        r@ == list@.subrange(from as int, list@.len() as int),
{
    let mut r: Vec<Address> = Vec::new();
    let mut i: usize = from;
    while i < list.len()
        invariant
            from <= i <= list@.len(),
            r@ == list@.subrange(from as int, i as int),
        decreases list@.len() - i,
    {
        r.push(list[i]);
        i = i + 1;
        assert(r@ =~= list@.subrange(from as int, i as int));
    }
    r
}

pub(crate) fn copy_list(list: &Vec<Address>) -> (r: Vec<Address>)
    ensures
        r@ == list@,
{
    let mut r: Vec<Address> = Vec::new();
    let mut i: usize = 0;
    while i < list.len()
        invariant
            i <= list@.len(),
            r@ == list@.take(i as int),
        decreases list@.len() - i,
    {
        r.push(list[i]);
        i = i + 1;
        assert(r@ =~= list@.take(i as int));
    }
    assert(list@.take(list@.len() as int) =~= list@);
    r
}

} // verus!
