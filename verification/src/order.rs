//! Stable ascending ordering of the catalog by priority.

use vstd::prelude::*;
use vstd::seq_lib::group_to_multiset_ensures;
use crate::profile::{Profile, ProfileModel, models};

verus! {

/// `p` inserted into `s` before the maximal run of trailing elements
/// whose priority exceeds `p`'s: the unique position a stable
/// insertion sort uses.
pub open spec fn insert_stable(s: Seq<ProfileModel>, p: ProfileModel) -> Seq<ProfileModel>
    decreases s.len(),
{
    if s.len() == 0 {
        seq![p]
    } else if s.last().priority > p.priority {
        insert_stable(s.drop_last(), p).push(s.last())
    } else {
        s.push(p)
    }
}

/// Stable ascending sort by priority: each element inserted, in input
/// order, at its stable position.
pub open spec fn spec_sort(s: Seq<ProfileModel>) -> Seq<ProfileModel>
    decreases s.len(),
{
    if s.len() == 0 {
        Seq::<ProfileModel>::empty()
    } else {
        insert_stable(spec_sort(s.drop_last()), s.last())
    }
}

/// Ascending by priority.
pub open spec fn sorted_by_priority(s: Seq<ProfileModel>) -> bool {
    forall|i: int, j: int| 0 <= i <= j < s.len() ==> s[i].priority <= s[j].priority
}

/// Where every element from `pos` on outranks `p` and the element
/// before `pos` (if any) does not, stable insertion is insertion at
/// `pos`.
proof fn lemma_insert_stable_at(s: Seq<ProfileModel>, p: ProfileModel, pos: int)
    requires
        0 <= pos <= s.len(),
        forall|j: int| pos <= j < s.len() ==> s[j].priority > p.priority,
        pos > 0 ==> s[pos - 1].priority <= p.priority,
    ensures
        insert_stable(s, p) == s.insert(pos, p),
    decreases s.len(),
{
    if s.len() == 0 {
        assert(insert_stable(s, p) =~= s.insert(0, p));
    } else if s.last().priority > p.priority {
        assert(pos < s.len());
        lemma_insert_stable_at(s.drop_last(), p, pos);
        assert(insert_stable(s.drop_last(), p).push(s.last()) =~= s.insert(pos, p));
    } else {
        assert(pos == s.len());
        assert(s.push(p) =~= s.insert(pos, p));
    }
}

/// A bound on every priority of `s` and on `p`'s is a bound on every
/// priority of the stable insertion.
proof fn lemma_insert_stable_bound(s: Seq<ProfileModel>, p: ProfileModel, b: i64)
    requires
        forall|k: int| 0 <= k < s.len() ==> s[k].priority <= b,
        p.priority <= b,
    ensures
        forall|k: int|
            0 <= k < insert_stable(s, p).len() ==> insert_stable(s, p)[k].priority <= b,
    decreases s.len(),
{
    if s.len() == 0 {
    } else if s.last().priority > p.priority {
        lemma_insert_stable_bound(s.drop_last(), p, b);
    }
}

/// Stable insertion into a sorted sequence stays sorted.
proof fn lemma_insert_stable_sorted(s: Seq<ProfileModel>, p: ProfileModel)
    requires
        sorted_by_priority(s),
    ensures
        sorted_by_priority(insert_stable(s, p)),
    decreases s.len(),
{
    if s.len() == 0 {
    } else if s.last().priority > p.priority {
        assert(sorted_by_priority(s.drop_last()));
        lemma_insert_stable_sorted(s.drop_last(), p);
        lemma_insert_stable_bound(s.drop_last(), p, s.last().priority);
        let r = insert_stable(s.drop_last(), p).push(s.last());
        assert forall|i: int, j: int| 0 <= i <= j < r.len() implies r[i].priority
            <= r[j].priority by {
            if j < r.len() - 1 {
                assert(insert_stable(s.drop_last(), p)[i].priority <= insert_stable(
                    s.drop_last(),
                    p,
                )[j].priority);
            }
        }
    } else {
        let r = s.push(p);
        assert forall|i: int, j: int| 0 <= i <= j < r.len() implies r[i].priority
            <= r[j].priority by {
            if j == r.len() - 1 && i < j {
                assert(s[i].priority <= s[s.len() - 1].priority);
            }
        }
    }
}

/// The sorted catalog is ascending by priority.
pub proof fn lemma_sort_sorted(s: Seq<ProfileModel>)
    ensures
        sorted_by_priority(spec_sort(s)),
    decreases s.len(),
{
    if s.len() > 0 {
        lemma_sort_sorted(s.drop_last());
        lemma_insert_stable_sorted(spec_sort(s.drop_last()), s.last());
    }
}

/// Stable insertion only adds `p` to the elements of `s`.
proof fn lemma_insert_stable_multiset(s: Seq<ProfileModel>, p: ProfileModel)
    ensures
        insert_stable(s, p).to_multiset() == s.to_multiset().insert(p),
    decreases s.len(),
{
    broadcast use group_to_multiset_ensures;

    if s.len() == 0 {
        assert(insert_stable(s, p) =~= Seq::<ProfileModel>::empty().push(p));
        assert(Seq::<ProfileModel>::empty().push(p).to_multiset() =~= Seq::<
            ProfileModel,
        >::empty().to_multiset().insert(p));
    } else if s.last().priority > p.priority {
        lemma_insert_stable_multiset(s.drop_last(), p);
        assert(s.drop_last().push(s.last()) =~= s);
        assert(insert_stable(s, p).to_multiset() =~= insert_stable(
            s.drop_last(),
            p,
        ).to_multiset().insert(s.last()));
        assert(s.drop_last().to_multiset().insert(p).insert(s.last()) =~= s.drop_last()
            .to_multiset().insert(s.last()).insert(p));
    } else {
    }
}

/// The sorted catalog holds exactly the input records: sorting is a
/// permutation.
pub proof fn lemma_sort_permutation(s: Seq<ProfileModel>)
    ensures
        spec_sort(s).to_multiset() == s.to_multiset(),
    decreases s.len(),
{
    broadcast use group_to_multiset_ensures;

    if s.len() > 0 {
        lemma_sort_permutation(s.drop_last());
        lemma_insert_stable_multiset(spec_sort(s.drop_last()), s.last());
        assert(s.drop_last().push(s.last()) =~= s);
        assert(spec_sort(s).to_multiset() =~= s.drop_last().to_multiset().insert(s.last()));
    }
}

/// Records with priority `q`, in order.
pub open spec fn at_priority(s: Seq<ProfileModel>, q: i64) -> Seq<ProfileModel> {
    s.filter(|m: ProfileModel| m.priority == q)
}

/// Stable insertion leaves every equal-priority subsequence as it was,
/// except that `p` joins the end of its own.
proof fn lemma_insert_stable_filter(s: Seq<ProfileModel>, p: ProfileModel, q: i64)
    ensures
        q == p.priority ==> at_priority(insert_stable(s, p), q) == at_priority(s, q).push(p),
        q != p.priority ==> at_priority(insert_stable(s, p), q) == at_priority(s, q),
    decreases s.len(),
{
    reveal(Seq::filter);
    if s.len() == 0 {
        assert(insert_stable(s, p).drop_last() =~= s);
    } else if s.last().priority > p.priority {
        lemma_insert_stable_filter(s.drop_last(), p, q);
        let r = insert_stable(s.drop_last(), p).push(s.last());
        assert(r.drop_last() =~= insert_stable(s.drop_last(), p));
        assert(r.last() == s.last());
    } else {
        assert(s.push(p).drop_last() =~= s);
    }
}

/// Sorting keeps the relative order of equal-priority records: for
/// every priority, the subsequence of records holding it is unchanged.
pub proof fn lemma_sort_stable(s: Seq<ProfileModel>, q: i64)
    ensures
        at_priority(spec_sort(s), q) == at_priority(s, q),
    decreases s.len(),
{
    reveal(Seq::filter);
    if s.len() > 0 {
        lemma_sort_stable(s.drop_last(), q);
        lemma_insert_stable_filter(spec_sort(s.drop_last()), s.last(), q);
        if s.last().priority == q {
            assert(at_priority(s, q) =~= at_priority(s.drop_last(), q).push(s.last()));
        } else {
            assert(at_priority(s, q) =~= at_priority(s.drop_last(), q));
        }
    }
}

/// Stably sorts the records ascending by priority; equal-priority
/// records keep their relative input order.
#[verifier::loop_isolation(false)]
pub fn order(records: Vec<Profile>) -> (r: Vec<Profile>)
    ensures
        models(r@) == spec_sort(models(records@)),
{
    let ghost orig = records@;
    let mut rest = records;
    let mut out: Vec<Profile> = Vec::new();
    let ghost mut i: int = 0;
    proof {
        assert(rest@ =~= orig.skip(0));
        assert(models(orig.take(0)) =~= Seq::<ProfileModel>::empty());
        assert(models(out@) =~= Seq::<ProfileModel>::empty());
    }
    while rest.len() > 0
        invariant
            0 <= i <= orig.len(),
            rest@ == orig.skip(i),
            models(out@) == spec_sort(models(orig.take(i))),
        decreases rest@.len(),
    {
        let ghost old_rest = rest@;
        let p = rest.remove(0);
        proof {
            assert(old_rest.remove(0) =~= orig.skip(i + 1));
            assert(p == orig[i]);
        }
        let mut pos: usize = out.len();
        while pos > 0 && out[pos - 1].priority > p.priority
            invariant
                pos <= out.len(),
                forall|j: int| pos <= j < out@.len() ==> out@[j].priority > p.priority,
            decreases pos,
        {
            pos = pos - 1;
        }
        let ghost old_out = out@;
        out.insert(pos, p);
        proof {
            assert forall|j: int| pos <= j < models(old_out).len() implies models(
                old_out,
            )[j].priority > p@.priority by {
                assert(old_out[j].priority > p.priority);
            }
            if pos > 0 {
                assert(models(old_out)[pos - 1].priority <= p@.priority) by {
                    assert(old_out[pos - 1].priority <= p.priority);
                }
            }
            lemma_insert_stable_at(models(old_out), p@, pos as int);
            assert(models(out@) =~= models(old_out).insert(pos as int, p@));
            let t1 = models(orig.take(i + 1));
            assert(t1.drop_last() =~= models(orig.take(i)));
            assert(t1.last() == orig[i]@);
            assert(t1.len() > 0);
            assert(spec_sort(t1) == insert_stable(spec_sort(models(orig.take(i))), orig[i]@));
            i = i + 1;
        }
    }
    proof {
        assert(orig.take(i) =~= orig);
    }
    out
}

} // verus!
