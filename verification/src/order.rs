//! Sorting of indices by a rule that says which of two items stands first.

use vstd::prelude::*;
use vstd::seq_lib::*;

verus! {

/// A rule that says which of two indexed items has to stand first.
///
/// `before` is a strict weak order on the indices that the rule admits: no two
/// items stand before each other, and where `b` does not have to stand before
/// `a`, nor `c` before `b`, `c` does not have to stand before `a`.
pub trait IndexOrder {
    /// The indices that the rule can compare.
    spec fn admits(&self, a: usize) -> bool;

    /// Item `a` has to stand before item `b`.
    spec fn before(&self, a: usize, b: usize) -> bool;

    proof fn lemma_asymmetric(&self, a: usize, b: usize)
        requires
            self.admits(a),
            self.admits(b),
        ensures
            !(self.before(a, b) && self.before(b, a)),
    ;

    proof fn lemma_chain(&self, a: usize, b: usize, c: usize)
        requires
            self.admits(a),
            self.admits(b),
            self.admits(c),
            !self.before(b, a),
            !self.before(c, b),
        ensures
            !self.before(c, a),
    ;

    /// Decides `before`.
    fn comes_before(&self, a: usize, b: usize) -> (r: bool)
        requires
            self.admits(a),
            self.admits(b),
        ensures
            r == self.before(a, b),
    ;
}

/// Every item of `s` can be compared.
pub open spec fn all_admitted<O: IndexOrder>(order: &O, s: Seq<usize>) -> bool {
    forall|i: int| 0 <= i < s.len() ==> order.admits(#[trigger] s[i])
}

/// No item of `s` has to stand before an earlier one.
pub open spec fn ordered<O: IndexOrder>(order: &O, s: Seq<usize>) -> bool {
    forall|i: int, j: int| 0 <= i < j < s.len() ==> !order.before(#[trigger] s[j], #[trigger] s[i])
}

/// `out` holds the items of `s`, each as often as `s` does, in an order that
/// the rule accepts.
pub open spec fn is_sorting<O: IndexOrder>(order: &O, s: Seq<usize>, out: Seq<usize>) -> bool {
    &&& out.to_multiset() == s.to_multiset()
    &&& out.len() == s.len()
    &&& ordered(order, out)
}

/// Merges two ordered runs into one.
fn merge<O: IndexOrder>(order: &O, a: &Vec<usize>, b: &Vec<usize>) -> (out: Vec<usize>)
    requires
        all_admitted(order, a@),
        all_admitted(order, b@),
        ordered(order, a@),
        ordered(order, b@),
        a.len() + b.len() <= usize::MAX,
    ensures
        out@.to_multiset() == a@.to_multiset().add(b@.to_multiset()),
        out.len() == a.len() + b.len(),
        ordered(order, out@),
        all_admitted(order, out@),
{
    let mut out: Vec<usize> = Vec::new();
    let mut i: usize = 0;
    let mut j: usize = 0;
    proof {
        broadcast use group_to_multiset_ensures;

    }
    while i < a.len() || j < b.len()
        invariant
            i <= a.len(),
            j <= b.len(),
            a.len() + b.len() <= usize::MAX,
            out.len() == i + j,
            all_admitted(order, a@),
            all_admitted(order, b@),
            all_admitted(order, out@),
            ordered(order, a@),
            ordered(order, b@),
            ordered(order, out@),
            out@.to_multiset() == a@.take(i as int).to_multiset().add(
                b@.take(j as int).to_multiset(),
            ),
            forall|k: int, m: int|
                0 <= k < out.len() && i <= m < a.len() ==> !order.before(
                    #[trigger] a@[m],
                    #[trigger] out@[k],
                ),
            forall|k: int, m: int|
                0 <= k < out.len() && j <= m < b.len() ==> !order.before(
                    #[trigger] b@[m],
                    #[trigger] out@[k],
                ),
        decreases a.len() - i + (b.len() - j),
    {
        let from_left: bool = if i < a.len() && j < b.len() {
            !order.comes_before(b[j], a[i])
        } else {
            i < a.len()
        };
        let ghost prev = out@;
        if from_left {
            let x: usize = a[i];
            proof {
                assert(a@.take(i + 1) =~= a@.take(i as int).push(x));
                to_multiset_build(a@.take(i as int), x);
                to_multiset_build(prev, x);
                assert forall|m: int| j <= m < b.len() implies !order.before(
                    #[trigger] b@[m],
                    x,
                ) by {
                    if m > j {
                        order.lemma_chain(x, b@[j as int], b@[m]);
                    }
                }
            }
            out.push(x);
            i = i + 1;
            assert(out@.to_multiset() =~= a@.take(i as int).to_multiset().add(
                b@.take(j as int).to_multiset(),
            ));
        } else {
            let x: usize = b[j];
            proof {
                assert(b@.take(j + 1) =~= b@.take(j as int).push(x));
                to_multiset_build(b@.take(j as int), x);
                to_multiset_build(prev, x);
                assert forall|m: int| i <= m < a.len() implies !order.before(
                    #[trigger] a@[m],
                    x,
                ) by {
                    order.lemma_asymmetric(x, a@[i as int]);
                    if m > i {
                        order.lemma_chain(x, a@[i as int], a@[m]);
                    }
                }
            }
            out.push(x);
            j = j + 1;
            assert(out@.to_multiset() =~= a@.take(i as int).to_multiset().add(
                b@.take(j as int).to_multiset(),
            ));
        }
    }
    proof {
        assert(a@.take(i as int) =~= a@);
        assert(b@.take(j as int) =~= b@);
    }
    out
}

/// Sorts `v` by the rule `order` (merge sort).
pub fn sort_indices<O: IndexOrder>(order: &O, v: Vec<usize>) -> (out: Vec<usize>)
    requires
        all_admitted(order, v@),
    ensures
        is_sorting(order, v@, out@),
        all_admitted(order, out@),
    decreases v.len(),
{
    if v.len() <= 1 {
        return v;
    }
    let ghost whole = v@;
    let mid: usize = v.len() / 2;
    let mut left: Vec<usize> = v;
    let right: Vec<usize> = left.split_off(mid);
    proof {
        assert(whole =~= left@ + right@);
        lemma_multiset_commutative(left@, right@);
    }
    let left_sorted: Vec<usize> = sort_indices(order, left);
    let right_sorted: Vec<usize> = sort_indices(order, right);
    merge(order, &left_sorted, &right_sorted)
}

/// A sorting of `s` holds exactly the items of `s`.
pub proof fn lemma_sorting_keeps_items<O: IndexOrder>(order: &O, s: Seq<usize>, out: Seq<usize>)
    requires
        is_sorting(order, s, out),
    ensures
        forall|x: usize| s.contains(x) <==> out.contains(x),
        s.no_duplicates() ==> out.no_duplicates(),
{
    broadcast use to_multiset_contains;

    assert forall|x: usize| s.contains(x) <==> out.contains(x) by {
        to_multiset_contains(s, x);
    }
    if s.no_duplicates() {
        s.lemma_multiset_has_no_duplicates();
        out.lemma_multiset_has_no_duplicates_conv();
    }
}

} // verus!
