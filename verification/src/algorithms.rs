use vstd::prelude::*;
use crate::model::{Joint, Model, parents_of, data_of, parents_ordered};

verus! {

/// Joint `i`'s step of the first sweep: its new data comes from its old data
/// and its parent's new data (nothing for a joint attached to the base).
pub open spec fn kinematics_at<D, FK: Fn(&D, Option<&D>) -> D>(
    kinematics: FK,
    parents: Seq<Option<usize>>,
    before: Seq<D>,
    after: Seq<D>,
    i: int,
) -> bool {
    call_ensures(
        kinematics,
        (&before[i], match parents[i] { Some(p) => Some(&after[p as int]), None => None }),
        after[i],
    )
}

/// First sweep, from the base outwards.
pub open spec fn kinematics_pass<D, FK: Fn(&D, Option<&D>) -> D>(
    kinematics: FK,
    parents: Seq<Option<usize>>,
    before: Seq<D>,
    after: Seq<D>,
) -> bool {
    &&& after.len() == before.len()
    &&& forall|i: int|
        0 <= i < before.len() ==> #[trigger] kinematics_at(kinematics, parents, before, after, i)
}

/// One step of the second sweep at joint `i`: the joint's articulated terms
/// are computed from its data, then, for a joint with a parent, the parent's
/// data absorbs the joint's contribution.
pub open spec fn inward_step<D, FT: Fn(&D) -> D, FP: Fn(&D, &D) -> D>(
    terms: FT,
    propagate: FP,
    parent: Option<usize>,
    i: int,
    a: Seq<D>,
    b: Seq<D>,
) -> bool {
    &&& call_ensures(terms, (&a[i],), b[i])
    &&& match parent {
        None => b == a.update(i, b[i]),
        Some(p) => {
            &&& call_ensures(propagate, (&b[i], &a[p as int]), b[p as int])
            &&& b == a.update(i, b[i]).update(p as int, b[p as int])
        },
    }
}

/// The states of the second sweep: `trace[k]` holds the joints' data once
/// joints `k..n` are done; the sweep starts at `trace[n]` and ends at `trace[0]`.
pub open spec fn inward_trace<D, FT: Fn(&D) -> D, FP: Fn(&D, &D) -> D>(
    terms: FT,
    propagate: FP,
    parents: Seq<Option<usize>>,
    trace: Seq<Seq<D>>,
) -> bool {
    &&& trace.len() == parents.len() + 1
    &&& forall|k: int|
        #![trigger trace[k]]
        0 <= k < parents.len() ==> inward_step(terms, propagate, parents[k], k, trace[k + 1], trace[k])
}

/// Second sweep, from the leaves inwards, joint `n - 1` first.
pub open spec fn inward_pass<D, FT: Fn(&D) -> D, FP: Fn(&D, &D) -> D>(
    terms: FT,
    propagate: FP,
    parents: Seq<Option<usize>>,
    before: Seq<D>,
    after: Seq<D>,
) -> bool {
    exists|trace: Seq<Seq<D>>|
        #[trigger] inward_trace(terms, propagate, parents, trace) && trace[parents.len() as int]
            == before && trace[0] == after
}

/// Joint `i`'s step of the third sweep: its new data comes from its data and
/// the new data of its parent, or the base's data for a joint attached to it.
pub open spec fn acceleration_at<D, FA: Fn(&D, &D) -> D>(
    acceleration: FA,
    parents: Seq<Option<usize>>,
    base: D,
    before: Seq<D>,
    after: Seq<D>,
    i: int,
) -> bool {
    call_ensures(
        acceleration,
        (&before[i], match parents[i] { Some(p) => &after[p as int], None => &base }),
        after[i],
    )
}

/// Third sweep, from the base outwards.
pub open spec fn acceleration_pass<D, FA: Fn(&D, &D) -> D>(
    acceleration: FA,
    parents: Seq<Option<usize>>,
    base: D,
    before: Seq<D>,
    after: Seq<D>,
) -> bool {
    &&& after.len() == before.len()
    &&& forall|i: int|
        0 <= i < before.len() ==> #[trigger] acceleration_at(acceleration, parents, base, before, after, i)
}

/// The three sweeps of the articulated-body algorithm, one after another.
pub open spec fn articulated_body_sweeps<
    D,
    FK: Fn(&D, Option<&D>) -> D,
    FT: Fn(&D) -> D,
    FP: Fn(&D, &D) -> D,
    FA: Fn(&D, &D) -> D,
>(
    kinematics: FK,
    terms: FT,
    propagate: FP,
    acceleration: FA,
    parents: Seq<Option<usize>>,
    base: D,
    before: Seq<D>,
    after: Seq<D>,
) -> bool {
    exists|v: Seq<D>, w: Seq<D>|
        #![trigger kinematics_pass(kinematics, parents, before, v), inward_pass(terms, propagate, parents, v, w)]
        kinematics_pass(kinematics, parents, before, v) && inward_pass(
            terms,
            propagate,
            parents,
            v,
            w,
        ) && acceleration_pass(acceleration, parents, base, w, after)
}

proof fn lemma_inward_lengths<D, FT: Fn(&D) -> D, FP: Fn(&D, &D) -> D>(
    terms: FT,
    propagate: FP,
    parents: Seq<Option<usize>>,
    trace: Seq<Seq<D>>,
    k: int,
)
    requires
        parents_ordered(parents),
        inward_trace(terms, propagate, parents, trace),
        trace[parents.len() as int].len() == parents.len(),
        0 <= k <= parents.len(),
    ensures
        trace[k].len() == parents.len(),
    decreases parents.len() - k,
{
    if k < parents.len() {
        lemma_inward_lengths(terms, propagate, parents, trace, k + 1);
        assert(inward_step(terms, propagate, parents[k], k, trace[k + 1], trace[k]));
        assert(match parents[k] { Some(p) => p < k, None => true });
    }
}

proof fn lemma_inward_untouched_below<D, FT: Fn(&D) -> D, FP: Fn(&D, &D) -> D>(
    terms: FT,
    propagate: FP,
    parents: Seq<Option<usize>>,
    trace: Seq<Seq<D>>,
    i: int,
    k: int,
)
    requires
        parents_ordered(parents),
        inward_trace(terms, propagate, parents, trace),
        trace[parents.len() as int].len() == parents.len(),
        0 <= k <= i < parents.len(),
    ensures
        trace[k][i] == trace[i][i],
    decreases i - k,
{
    if k < i {
        lemma_inward_untouched_below(terms, propagate, parents, trace, i, k + 1);
        lemma_inward_lengths(terms, propagate, parents, trace, k + 1);
        assert(inward_step(terms, propagate, parents[k], k, trace[k + 1], trace[k]));
        assert(match parents[k] { Some(p) => p < k, None => true });
    }
}

proof fn lemma_inward_only_children_before<D, FT: Fn(&D) -> D, FP: Fn(&D, &D) -> D>(
    terms: FT,
    propagate: FP,
    parents: Seq<Option<usize>>,
    trace: Seq<Seq<D>>,
    i: int,
    k: int,
)
    requires
        parents_ordered(parents),
        inward_trace(terms, propagate, parents, trace),
        trace[parents.len() as int].len() == parents.len(),
        0 <= i < k <= parents.len(),
        forall|j: int| i < j < parents.len() ==> #[trigger] parents[j] != Some(i as usize),
    ensures
        trace[k][i] == trace[parents.len() as int][i],
    decreases parents.len() - k,
{
    if k < parents.len() {
        lemma_inward_only_children_before(terms, propagate, parents, trace, i, k + 1);
        lemma_inward_lengths(terms, propagate, parents, trace, k + 1);
        assert(inward_step(terms, propagate, parents[k], k, trace[k + 1], trace[k]));
        assert(parents[k] != Some(i as usize));
        assert(match parents[k] { Some(p) => p < k && p != i, None => true });
    }
}

/// The order of the inward sweep: a joint's articulated terms are computed
/// only once every joint after it has been processed, and before that only
/// its children change its data (a joint without children enters with its
/// data from the first sweep); once computed, the terms are the joint's final
/// data, since no later step touches it.
pub proof fn lemma_inward_sweep_order<D, FT: Fn(&D) -> D, FP: Fn(&D, &D) -> D>(
    terms: FT,
    propagate: FP,
    parents: Seq<Option<usize>>,
    trace: Seq<Seq<D>>,
    i: int,
)
    requires
        parents_ordered(parents),
        inward_trace(terms, propagate, parents, trace),
        trace[parents.len() as int].len() == parents.len(),
        0 <= i < parents.len(),
    ensures
        call_ensures(terms, (&trace[i + 1][i],), trace[i][i]),
        trace[0][i] == trace[i][i],
        forall|j: int|
            i < j < parents.len() && parents[j] != Some(i as usize) ==> (#[trigger] trace[j])[i] == trace[j + 1][i],
        (forall|j: int| i < j < parents.len() ==> #[trigger] parents[j] != Some(i as usize)) ==> trace[i + 1][i]
            == trace[parents.len() as int][i],
{
    assert(inward_step(terms, propagate, parents[i], i, trace[i + 1], trace[i]));
    lemma_inward_untouched_below(terms, propagate, parents, trace, i, 0);
    assert forall|j: int|
        i < j < parents.len() && parents[j] != Some(i as usize) implies (#[trigger] trace[j])[i] == trace[j + 1][i] by {
        lemma_inward_lengths(terms, propagate, parents, trace, j + 1);
        assert(inward_step(terms, propagate, parents[j], j, trace[j + 1], trace[j]));
    }
    if forall|j: int| i < j < parents.len() ==> #[trigger] parents[j] != Some(i as usize) {
        lemma_inward_only_children_before(terms, propagate, parents, trace, i, i + 1);
    }
}

/// The kinematics step gives one result for each pair of arguments.
pub open spec fn kinematics_deterministic<D, FK: Fn(&D, Option<&D>) -> D>(kinematics: FK) -> bool {
    forall|x: &D, y: Option<&D>, r1: D, r2: D|
        #![trigger call_ensures(kinematics, (x, y), r1), call_ensures(kinematics, (x, y), r2)]
        call_ensures(kinematics, (x, y), r1) && call_ensures(kinematics, (x, y), r2) ==> r1 == r2
}

/// The terms step gives one result for each argument.
pub open spec fn terms_deterministic<D, FT: Fn(&D) -> D>(terms: FT) -> bool {
    forall|x: &D, r1: D, r2: D|
        #![trigger call_ensures(terms, (x,), r1), call_ensures(terms, (x,), r2)]
        call_ensures(terms, (x,), r1) && call_ensures(terms, (x,), r2) ==> r1 == r2
}

/// A two-argument step gives one result for each pair of arguments.
pub open spec fn pair_step_deterministic<D, F: Fn(&D, &D) -> D>(f: F) -> bool {
    forall|x: &D, y: &D, r1: D, r2: D|
        #![trigger call_ensures(f, (x, y), r1), call_ensures(f, (x, y), r2)]
        call_ensures(f, (x, y), r1) && call_ensures(f, (x, y), r2) ==> r1 == r2
}

proof fn lemma_kinematics_pass_unique<D, FK: Fn(&D, Option<&D>) -> D>(
    kinematics: FK,
    parents: Seq<Option<usize>>,
    before: Seq<D>,
    a: Seq<D>,
    b: Seq<D>,
    i: int,
)
    requires
        parents_ordered(parents),
        parents.len() == before.len(),
        kinematics_deterministic(kinematics),
        kinematics_pass(kinematics, parents, before, a),
        kinematics_pass(kinematics, parents, before, b),
        0 <= i <= before.len(),
    ensures
        forall|j: int| 0 <= j < i ==> #[trigger] a[j] == b[j],
    decreases i,
{
    if i > 0 {
        lemma_kinematics_pass_unique(kinematics, parents, before, a, b, i - 1);
        let k = i - 1;
        assert(kinematics_at(kinematics, parents, before, a, k));
        assert(kinematics_at(kinematics, parents, before, b, k));
        match parents[k] {
            Some(p) => {
                assert(a[p as int] == b[p as int]);
                assert(call_ensures(kinematics, (&before[k], Some(&b[p as int])), a[k]));
            },
            None => {},
        }
    }
}

proof fn lemma_acceleration_pass_unique<D, FA: Fn(&D, &D) -> D>(
    acceleration: FA,
    parents: Seq<Option<usize>>,
    base: D,
    before: Seq<D>,
    a: Seq<D>,
    b: Seq<D>,
    i: int,
)
    requires
        parents_ordered(parents),
        parents.len() == before.len(),
        pair_step_deterministic(acceleration),
        acceleration_pass(acceleration, parents, base, before, a),
        acceleration_pass(acceleration, parents, base, before, b),
        0 <= i <= before.len(),
    ensures
        forall|j: int| 0 <= j < i ==> #[trigger] a[j] == b[j],
    decreases i,
{
    if i > 0 {
        lemma_acceleration_pass_unique(acceleration, parents, base, before, a, b, i - 1);
        let k = i - 1;
        assert(acceleration_at(acceleration, parents, base, before, a, k));
        assert(acceleration_at(acceleration, parents, base, before, b, k));
        match parents[k] {
            Some(p) => {
                assert(a[p as int] == b[p as int]);
                assert(call_ensures(acceleration, (&before[k], &b[p as int]), a[k]));
            },
            None => {},
        }
    }
}

proof fn lemma_inward_trace_unique<D, FT: Fn(&D) -> D, FP: Fn(&D, &D) -> D>(
    terms: FT,
    propagate: FP,
    parents: Seq<Option<usize>>,
    t1: Seq<Seq<D>>,
    t2: Seq<Seq<D>>,
    k: int,
)
    requires
        terms_deterministic(terms),
        pair_step_deterministic(propagate),
        inward_trace(terms, propagate, parents, t1),
        inward_trace(terms, propagate, parents, t2),
        t1[parents.len() as int] == t2[parents.len() as int],
        0 <= k <= parents.len(),
    ensures
        t1[k] == t2[k],
    decreases parents.len() - k,
{
    if k < parents.len() {
        lemma_inward_trace_unique(terms, propagate, parents, t1, t2, k + 1);
        let a = t1[k + 1];
        assert(inward_step(terms, propagate, parents[k], k, a, t1[k]));
        assert(inward_step(terms, propagate, parents[k], k, t2[k + 1], t2[k]));
        assert(t1[k][k] == t2[k][k]);
        match parents[k] {
            Some(p) => {
                assert(t1[k][p as int] == t2[k][p as int]);
            },
            None => {},
        }
    }
}

/// The sweeps decide the outcome: with steps that give one result for each
/// argument, two runs of the articulated-body algorithm on the same model
/// (through `articulated_body` or `Model::update`, whose contracts state the
/// same sweeps) end with the same joint data.
pub proof fn lemma_sweeps_determined<
    D,
    FK: Fn(&D, Option<&D>) -> D,
    FT: Fn(&D) -> D,
    FP: Fn(&D, &D) -> D,
    FA: Fn(&D, &D) -> D,
>(
    kinematics: FK,
    terms: FT,
    propagate: FP,
    acceleration: FA,
    parents: Seq<Option<usize>>,
    base: D,
    before: Seq<D>,
    after1: Seq<D>,
    after2: Seq<D>,
)
    requires
        parents_ordered(parents),
        parents.len() == before.len(),
        kinematics_deterministic(kinematics),
        terms_deterministic(terms),
        pair_step_deterministic(propagate),
        pair_step_deterministic(acceleration),
        articulated_body_sweeps(kinematics, terms, propagate, acceleration, parents, base, before, after1),
        articulated_body_sweeps(kinematics, terms, propagate, acceleration, parents, base, before, after2),
    ensures
        after1 == after2,
{
    let (v1, w1) = choose|v: Seq<D>, w: Seq<D>|
        #![trigger kinematics_pass(kinematics, parents, before, v), inward_pass(terms, propagate, parents, v, w)]
        kinematics_pass(kinematics, parents, before, v) && inward_pass(terms, propagate, parents, v, w)
            && acceleration_pass(acceleration, parents, base, w, after1);
    let (v2, w2) = choose|v: Seq<D>, w: Seq<D>|
        #![trigger kinematics_pass(kinematics, parents, before, v), inward_pass(terms, propagate, parents, v, w)]
        kinematics_pass(kinematics, parents, before, v) && inward_pass(terms, propagate, parents, v, w)
            && acceleration_pass(acceleration, parents, base, w, after2);
    lemma_kinematics_pass_unique(kinematics, parents, before, v1, v2, before.len() as int);
    assert(v1 =~= v2);
    let t1 = choose|trace: Seq<Seq<D>>|
        #[trigger] inward_trace(terms, propagate, parents, trace) && trace[parents.len() as int] == v1 && trace[0]
            == w1;
    let t2 = choose|trace: Seq<Seq<D>>|
        #[trigger] inward_trace(terms, propagate, parents, trace) && trace[parents.len() as int] == v2 && trace[0]
            == w2;
    lemma_inward_trace_unique(terms, propagate, parents, t1, t2, 0);
    assert(w1 == w2);
    lemma_inward_lengths(terms, propagate, parents, t1, 0);
    lemma_acceleration_pass_unique(acceleration, parents, base, w1, after1, after2, before.len() as int);
    assert(after1 =~= after2);
}

fn kinematics_sweep<D, FK: Fn(&D, Option<&D>) -> D>(joints: &mut Vec<Joint<D>>, kinematics: &FK)
    requires
        parents_ordered(parents_of(old(joints)@)),
        forall|x: &D, y: Option<&D>| kinematics.requires((x, y)),
    ensures
        parents_of(final(joints)@) == parents_of(old(joints)@),
        kinematics_pass(*kinematics, parents_of(old(joints)@), data_of(old(joints)@), data_of(final(joints)@)),
{
    let n = joints.len();
    let ghost parents = parents_of(joints@);
    let ghost before = data_of(joints@);
    for i in 0..n
        invariant
            n == joints@.len(),
            n == parents.len(),
            n == before.len(),
            parents_ordered(parents),
            parents == parents_of(old(joints)@),
            before == data_of(old(joints)@),
            forall|x: &D, y: Option<&D>| kinematics.requires((x, y)),
            forall|j: int| #![trigger joints@[j]] 0 <= j < n ==> joints@[j].parent == parents[j],
            forall|j: int| #![trigger joints@[j]] i <= j < n ==> joints@[j].data == before[j],
            forall|j: int|
                0 <= j < i ==> #[trigger] kinematics_at(*kinematics, parents, before, data_of(joints@), j),
    {
        let parent = joints[i].parent;
        assert(parents[i as int] == parent);
        let new_data = match parent {
            Some(p) => kinematics(&joints[i].data, Some(&joints[p].data)),
            None => kinematics(&joints[i].data, None),
        };
        let ghost prev = joints@;
        joints.set(i, Joint { parent, data: new_data });
        proof {
            assert forall|j: int| 0 <= j < i + 1 implies #[trigger] kinematics_at(*kinematics, parents, before, data_of(joints@), j) by {
                if j < i {
                    assert(kinematics_at(*kinematics, parents, before, data_of(prev), j));
                } else {
                    assert(before[j] == prev[j].data);
                }
                match parents[j] {
                    Some(p) => {
                        assert(data_of(joints@)[p as int] == data_of(prev)[p as int]);
                    },
                    None => {},
                }
            }
        }
    }
    proof {
        assert(parents_of(joints@) =~= parents);
    }
}


fn inward_sweep<D, FT: Fn(&D) -> D, FP: Fn(&D, &D) -> D>(
    joints: &mut Vec<Joint<D>>,
    terms: &FT,
    propagate: &FP,
)
    requires
        parents_ordered(parents_of(old(joints)@)),
        forall|x: &D| terms.requires((x,)),
        forall|x: &D, y: &D| propagate.requires((x, y)),
    ensures
        parents_of(final(joints)@) == parents_of(old(joints)@),
        inward_pass(*terms, *propagate, parents_of(old(joints)@), data_of(old(joints)@), data_of(final(joints)@)),
{
    let n = joints.len();
    let ghost parents = parents_of(joints@);
    let ghost before = data_of(joints@);
    // `done[m]` holds the joints' data once joints `k + m .. n` are done
    let ghost mut done: Seq<Seq<D>> = seq![before];
    let mut k = n;
    while k > 0
        invariant
            k <= n,
            n == joints@.len(),
            n == parents.len(),
            parents_ordered(parents),
            parents == parents_of(old(joints)@),
            before == data_of(old(joints)@),
            forall|x: &D| terms.requires((x,)),
            forall|x: &D, y: &D| propagate.requires((x, y)),
            forall|j: int| #![trigger joints@[j]] 0 <= j < n ==> joints@[j].parent == parents[j],
            done.len() == n - k + 1,
            done[0] == data_of(joints@),
            done[n - k] == before,
            forall|m: int|
                #![trigger done[m]]
                0 <= m < n - k ==> inward_step(*terms, *propagate, parents[k + m], k + m, done[m + 1], done[m]),
        decreases k,
    {
        k = k - 1;
        let ghost a = data_of(joints@);
        let parent = joints[k].parent;
        assert(parents[k as int] == parent);
        let t = terms(&joints[k].data);
        joints.set(k, Joint { parent, data: t });
        match parent {
            Some(p) => {
                let q = propagate(&joints[k].data, &joints[p].data);
                let pp = joints[p].parent;
                joints.set(p, Joint { parent: pp, data: q });
            },
            None => {},
        }
        proof {
            let b = data_of(joints@);
            match parent {
                Some(p) => {
                    assert(b =~= a.update(k as int, b[k as int]).update(p as int, b[p as int]));
                },
                None => {
                    assert(b =~= a.update(k as int, b[k as int]));
                },
            }
            assert(inward_step(*terms, *propagate, parents[k as int], k as int, a, b));
            let old_done = done;
            done = seq![b] + old_done;
            assert forall|m: int| 0 <= m < n - k implies #[trigger] inward_step(*terms, *propagate, parents[k + m], k + m, done[m + 1], done[m]) by {
                if m > 0 {
                    assert(done[m] == old_done[m - 1]);
                    assert(done[m + 1] == old_done[m]);
                    assert(inward_step(*terms, *propagate, parents[(k + 1) + (m - 1)], (k + 1) + (m - 1), old_done[(m - 1) + 1], old_done[m - 1]));
                }
            }
        }
    }
    proof {
        assert(parents_of(joints@) =~= parents);
        assert(inward_trace(*terms, *propagate, parents, done));
    }
}

fn acceleration_sweep<D, FA: Fn(&D, &D) -> D>(joints: &mut Vec<Joint<D>>, base: &D, acceleration: &FA)
    requires
        parents_ordered(parents_of(old(joints)@)),
        forall|x: &D, y: &D| acceleration.requires((x, y)),
    ensures
        parents_of(final(joints)@) == parents_of(old(joints)@),
        acceleration_pass(*acceleration, parents_of(old(joints)@), *base, data_of(old(joints)@), data_of(final(joints)@)),
{
    let n = joints.len();
    let ghost parents = parents_of(joints@);
    let ghost before = data_of(joints@);
    for i in 0..n
        invariant
            n == joints@.len(),
            n == parents.len(),
            n == before.len(),
            parents_ordered(parents),
            parents == parents_of(old(joints)@),
            before == data_of(old(joints)@),
            forall|x: &D, y: &D| acceleration.requires((x, y)),
            forall|j: int| #![trigger joints@[j]] 0 <= j < n ==> joints@[j].parent == parents[j],
            forall|j: int| #![trigger joints@[j]] i <= j < n ==> joints@[j].data == before[j],
            forall|j: int|
                0 <= j < i ==> #[trigger] acceleration_at(*acceleration, parents, *base, before, data_of(joints@), j),
    {
        let parent = joints[i].parent;
        assert(parents[i as int] == parent);
        let new_data = match parent {
            Some(p) => acceleration(&joints[i].data, &joints[p].data),
            None => acceleration(&joints[i].data, base),
        };
        let ghost prev = joints@;
        joints.set(i, Joint { parent, data: new_data });
        proof {
            assert forall|j: int| 0 <= j < i + 1 implies #[trigger] acceleration_at(*acceleration, parents, *base, before, data_of(joints@), j) by {
                if j < i {
                    assert(acceleration_at(*acceleration, parents, *base, before, data_of(prev), j));
                } else {
                    assert(before[j] == prev[j].data);
                }
                match parents[j] {
                    Some(p) => {
                        assert(data_of(joints@)[p as int] == data_of(prev)[p as int]);
                    },
                    None => {},
                }
            }
        }
    }
    proof {
        assert(parents_of(joints@) =~= parents);
    }
}

/// Runs the articulated-body algorithm over the model's joint tree.
///
/// The joints are swept three times: from the base outwards to update each
/// joint's kinematics from its parent's; from the leaves inwards to compute
/// each joint's articulated terms and fold them into its parent; and from the
/// base outwards again to compute each joint's acceleration from its parent's
/// (or the base's). The numeric work of each step is done by the given
/// functions; the sweeps decide which joints they read and write, and in
/// which order.
pub fn articulated_body<D, FK, FT, FP, FA>(
    model: &mut Model<D>,
    kinematics: FK,
    terms: FT,
    propagate: FP,
    acceleration: FA,
) where
    FK: Fn(&D, Option<&D>) -> D,
    FT: Fn(&D) -> D,
    FP: Fn(&D, &D) -> D,
    FA: Fn(&D, &D) -> D,

    requires
        old(model).well_formed(),
        forall|x: &D, y: Option<&D>| kinematics.requires((x, y)),
        forall|x: &D| terms.requires((x,)),
        forall|x: &D, y: &D| propagate.requires((x, y)),
        forall|x: &D, y: &D| acceleration.requires((x, y)),
    ensures
        final(model).base == old(model).base,
        final(model).parents() == old(model).parents(),
        articulated_body_sweeps(
            kinematics,
            terms,
            propagate,
            acceleration,
            old(model).parents(),
            old(model).base.data,
            old(model).data(),
            final(model).data(),
        ),
{
    let ghost parents = model.parents();
    let ghost before = model.data();
    kinematics_sweep(&mut model.joints, &kinematics);
    let ghost v = model.data();
    inward_sweep(&mut model.joints, &terms, &propagate);
    let ghost w = model.data();
    acceleration_sweep(&mut model.joints, &model.base.data, &acceleration);
    proof {
        assert(kinematics_pass(kinematics, parents, before, v));
        assert(inward_pass(terms, propagate, parents, v, w));
    }
}

} // verus!
