//! Precedence ordering of rank-keyed overrides.
//!
//! Overrides are applied in descending key order, so the override with the
//! smallest key (the highest-precedence role) is applied last and settles
//! conflicting bit decisions. The sort is stable: overrides with equal keys
//! keep the order in which the roles are stored.

use vstd::prelude::*;

use crate::values::Override;

verus! {

/// Insert one rank-keyed override into a sequence that is sorted by
/// descending key, placing it after every element whose key is at least as
/// large, so that elements with equal keys keep their original order.
pub open spec fn insert_desc(s: Seq<(i64, Override)>, x: (i64, Override)) -> Seq<(i64, Override)>
    decreases s.len(),
{
    if s.len() == 0 {
        seq![x]
    } else if s[0].0 >= x.0 {
        seq![s[0]] + insert_desc(s.drop_first(), x)
    } else {
        seq![x] + s
    }
}

/// Stable sort by descending key.
pub open spec fn sort_desc(s: Seq<(i64, Override)>) -> Seq<(i64, Override)>
    decreases s.len(),
{
    if s.len() == 0 {
        Seq::<(i64, Override)>::empty()
    } else {
        insert_desc(sort_desc(s.drop_last()), s.last())
    }
}

/// Inserting at the first position whose key is smaller than the key of the
/// new element is exactly what `insert_desc` describes.
proof fn lemma_insert_desc_at(s: Seq<(i64, Override)>, x: (i64, Override), j: int)
    requires
        0 <= j <= s.len(),
        forall|k: int| 0 <= k < j ==> s[k].0 >= x.0,
        j < s.len() ==> s[j].0 < x.0,
    ensures
        insert_desc(s, x) =~= s.take(j) + seq![x] + s.skip(j),
    decreases j,
{
    if j == 0 {
        if s.len() == 0 {
            assert(insert_desc(s, x) =~= seq![x]);
        } else {
            assert(s[0].0 < x.0);
        }
    } else {
        assert(s[0].0 >= x.0);
        lemma_insert_desc_at(s.drop_first(), x, j - 1);
        assert(insert_desc(s, x) =~= seq![s[0]] + (s.drop_first().take(j - 1) + seq![x]
            + s.drop_first().skip(j - 1)));
        assert(s.drop_first().take(j - 1) =~= s.take(j).drop_first());
        assert(s.drop_first().skip(j - 1) =~= s.skip(j));
    }
}

/// Insert a rank-keyed override into a vector sorted by descending key,
/// keeping overrides with equal keys in their insertion order.
fn sorted_insert(v: &mut Vec<(i64, Override)>, x: (i64, Override))
    ensures
        final(v)@ == insert_desc(old(v)@, x),
{
    let mut j: usize = 0;
    while j < v.len() && v[j].0 >= x.0
        invariant
            j <= v@.len(),
            v@ == old(v)@,
            forall|k: int| 0 <= k < j ==> v@[k].0 >= x.0,
        decreases v@.len() - j,
    {
        j += 1;
    }
    v.insert(j, x);
    proof {
        lemma_insert_desc_at(old(v)@, x, j as int);
        assert(old(v)@.insert(j as int, x) =~= old(v)@.take(j as int) + seq![x] + old(
            v,
        )@.skip(j as int));
    }
}

/// Stable insertion sort of rank-keyed overrides by descending key.
pub(crate) fn sort_overrides(v: &Vec<(i64, Override)>) -> (r: Vec<(i64, Override)>)
    ensures
        r@ == sort_desc(v@),
{
    let mut out: Vec<(i64, Override)> = Vec::new();
    let mut i: usize = 0;
    while i < v.len()
        invariant
            i <= v@.len(),
            out@ == sort_desc(v@.take(i as int)),
        decreases v@.len() - i,
    {
        let x: (i64, Override) = v[i];
        sorted_insert(&mut out, x);
        proof {
            assert(v@.take(i + 1).drop_last() =~= v@.take(i as int));
            assert(v@.take(i + 1).last() == v@[i as int]);
        }
        i += 1;
    }
    proof {
        assert(v@.take(v@.len() as int) =~= v@);
    }
    out
}

} // verus!
