//! Sequences that hold the same items in another order.

use vstd::prelude::*;

verus! {

/// Where every item of `t` is an item of `s`, taken from a place of its own,
/// and both are equally long, the two hold the same items equally often.
pub proof fn lemma_rearranged_multiset<A>(s: Seq<A>, t: Seq<A>, source: spec_fn(int) -> int)
    requires
        t.len() == s.len(),
        forall|k: int| 0 <= k < t.len() ==> 0 <= #[trigger] source(k) < s.len(),
        forall|k: int| 0 <= k < t.len() ==> t[k] == s[#[trigger] source(k)],
        forall|a: int, b: int|
            0 <= a < b < t.len() ==> #[trigger] source(a) != #[trigger] source(b),
    ensures
        t.to_multiset() == s.to_multiset(),
    decreases t.len(),
{
    broadcast use vstd::seq_lib::group_to_multiset_ensures;

    if t.len() == 0 {
        assert(t =~= s);
    } else {
        let last = t.len() - 1;
        let from = source(last);
        let rest_s = s.remove(from);
        let rest_t = t.drop_last();
        let shifted = |k: int|
            if source(k) < from {
                source(k)
            } else {
                source(k) - 1
            };
        assert forall|k: int| 0 <= k < rest_t.len() implies 0 <= #[trigger] shifted(k)
            < rest_s.len() && rest_t[k] == rest_s[shifted(k)] by {
            assert(source(k) != source(last));
        }
        assert forall|a: int, b: int| 0 <= a < b < rest_t.len() implies #[trigger] shifted(a)
            != #[trigger] shifted(b) by {
            assert(source(a) != source(b));
            assert(source(a) != source(last));
            assert(source(b) != source(last));
        }
        lemma_rearranged_multiset(rest_s, rest_t, shifted);
        assert(t =~= rest_t.push(t[last]));
        assert(rest_s.to_multiset() == s.to_multiset().remove(s[from]));
        assert(s.contains(s[from]));
        assert(s.to_multiset().count(s[from]) > 0);
        assert(s.to_multiset() =~= rest_s.to_multiset().insert(s[from]));
        assert(t.to_multiset() =~= rest_t.to_multiset().insert(t[last]));
    }
}

} // verus!
