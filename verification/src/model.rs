use vstd::prelude::*;
use crate::algorithms::{articulated_body, articulated_body_sweeps};

verus! {

/// A joint of an articulated model: the index of its parent joint in the
/// model (none for a joint attached to the base) and the joint's dynamic
/// data (transforms, velocities, inertias, forces), which the library carries
/// without looking inside.
pub struct Joint<D> {
    pub parent: Option<usize>,
    pub data: D,
}

/// An articulated model: a base and a list of joints forming a tree.
pub struct Model<D> {
    pub base: Joint<D>,
    pub joints: Vec<Joint<D>>,
}

/// The parent indices of a list of joints, in order.
pub open spec fn parents_of<D>(joints: Seq<Joint<D>>) -> Seq<Option<usize>> {
    Seq::new(joints.len(), |i: int| joints[i].parent)
}

/// The dynamic data of a list of joints, in order.
pub open spec fn data_of<D>(joints: Seq<Joint<D>>) -> Seq<D> {
    Seq::new(joints.len(), |i: int| joints[i].data)
}

/// Every joint's parent comes before it in the list: the joints form a tree
/// listed from the base outwards.
pub open spec fn parents_ordered(parents: Seq<Option<usize>>) -> bool {
    forall|i: int|
        0 <= i < parents.len() ==> match #[trigger] parents[i] {
            Some(p) => p < i,
            None => true,
        }
}

/// `after` is `before` with the joints that have a value updated by `f` from
/// their data and that value, in order; the joints past the last value keep
/// their data.
pub open spec fn zip_updated<D, T, F: Fn(&D, &T) -> D>(f: F, before: Seq<D>, values: Seq<T>, after: Seq<D>) -> bool {
    &&& after.len() == before.len()
    &&& forall|i: int|
        0 <= i < before.len() ==> if i < values.len() {
            call_ensures(f, (&before[i], &values[i]), #[trigger] after[i])
        } else {
            after[i] == before[i]
        }
}

/// `after` holds `f` of each element of `before`, in order.
pub open spec fn mapped<D, T, F: Fn(&D) -> T>(f: F, before: Seq<D>, after: Seq<T>) -> bool {
    &&& after.len() == before.len()
    &&& forall|i: int| 0 <= i < before.len() ==> call_ensures(f, (&before[i],), #[trigger] after[i])
}

impl<D> Model<D> {
    /// The parent indices of the model's joints.
    pub open spec fn parents(&self) -> Seq<Option<usize>> {
        parents_of(self.joints@)
    }

    /// The dynamic data of the model's joints.
    pub open spec fn data(&self) -> Seq<D> {
        data_of(self.joints@)
    }

    /// The joints are listed from the base outwards.
    pub open spec fn well_formed(&self) -> bool {
        parents_ordered(self.parents())
    }

    /// Tells whether every joint's parent comes before it, which the
    /// articulated-body sweeps need.
    pub fn parents_in_order(&self) -> (ordered: bool)
        ensures
            ordered == self.well_formed(),
    {
        let n = self.joints.len();
        for i in 0..n
            invariant
                n == self.joints@.len(),
                forall|j: int|
                    0 <= j < i ==> match #[trigger] self.parents()[j] {
                        Some(p) => p < j,
                        None => true,
                    },
        {
            match self.joints[i].parent {
                Some(p) => {
                    if p >= i {
                        assert(self.parents()[i as int] == Some(p));
                        return false;
                    }
                },
                None => {},
            }
            assert(self.parents()[i as int] == self.joints@[i as int].parent);
        }
        true
    }

    /// Builds a model from its base and its joints.
    pub fn new(base: Joint<D>, joints: Vec<Joint<D>>) -> (model: Self)
        ensures
            model.base == base,
            model.joints@ == joints@,
    {
        Model { base, joints }
    }

    /// Advances the model's dynamics by one evaluation of the
    /// articulated-body algorithm (see `articulated_body`).
    pub fn update<FK, FT, FP, FA>(&mut self, kinematics: FK, terms: FT, propagate: FP, acceleration: FA)
        where
            FK: Fn(&D, Option<&D>) -> D,
            FT: Fn(&D) -> D,
            FP: Fn(&D, &D) -> D,
            FA: Fn(&D, &D) -> D,

        requires
            old(self).well_formed(),
            forall|x: &D, y: Option<&D>| kinematics.requires((x, y)),
            forall|x: &D| terms.requires((x,)),
            forall|x: &D, y: &D| propagate.requires((x, y)),
            forall|x: &D, y: &D| acceleration.requires((x, y)),
        ensures
            final(self).base == old(self).base,
            final(self).parents() == old(self).parents(),
            final(self).well_formed(),
            articulated_body_sweeps(
                kinematics,
                terms,
                propagate,
                acceleration,
                old(self).parents(),
                old(self).base.data,
                old(self).data(),
                final(self).data(),
            ),
    {
        articulated_body(self, kinematics, terms, propagate, acceleration)
    }

    /// The state of the model: each joint's position and velocity, as the
    /// given functions read them, in joint order.
    pub fn get_state<T, FP, FV>(&self, position: FP, velocity: FV) -> (state: (Vec<T>, Vec<T>))
        where
            FP: Fn(&D) -> T,
            FV: Fn(&D) -> T,

        requires
            forall|x: &D| position.requires((x,)),
            forall|x: &D| velocity.requires((x,)),
        ensures
            mapped(position, self.data(), state.0@),
            mapped(velocity, self.data(), state.1@),
    {
        let mut q: Vec<T> = Vec::new();
        let mut qd: Vec<T> = Vec::new();
        let n = self.joints.len();
        for i in 0..n
            invariant
                n == self.joints@.len(),
                forall|x: &D| position.requires((x,)),
                forall|x: &D| velocity.requires((x,)),
                q@.len() == i,
                qd@.len() == i,
                forall|j: int| 0 <= j < i ==> call_ensures(position, (&self.data()[j],), #[trigger] q@[j]),
                forall|j: int| 0 <= j < i ==> call_ensures(velocity, (&self.data()[j],), #[trigger] qd@[j]),
        {
            q.push(position(&self.joints[i].data));
            qd.push(velocity(&self.joints[i].data));
        }
        (q, qd)
    }

    /// The derivative of the model's state: each joint's velocity and
    /// acceleration, as the given functions read them, in joint order.
    pub fn get_dstate<T, FV, FA>(&self, velocity: FV, acceleration: FA) -> (dstate: (Vec<T>, Vec<T>))
        where
            FV: Fn(&D) -> T,
            FA: Fn(&D) -> T,

        requires
            forall|x: &D| velocity.requires((x,)),
            forall|x: &D| acceleration.requires((x,)),
        ensures
            mapped(velocity, self.data(), dstate.0@),
            mapped(acceleration, self.data(), dstate.1@),
    {
        self.get_state(velocity, acceleration)
    }

    /// Sets the model's state: the positions `q` into the joints by
    /// `set_position`, then the velocities `qd` by `set_velocity`, each pairing
    /// joints and values in order up to the shorter of the two lists.
    pub fn set_state<T, FP, FV>(&mut self, q: &Vec<T>, qd: &Vec<T>, set_position: FP, set_velocity: FV)
        where
            FP: Fn(&D, &T) -> D,
            FV: Fn(&D, &T) -> D,

        requires
            forall|x: &D, y: &T| set_position.requires((x, y)),
            forall|x: &D, y: &T| set_velocity.requires((x, y)),
        ensures
            final(self).base == old(self).base,
            final(self).parents() == old(self).parents(),
            exists|mid: Seq<D>|
                #[trigger] zip_updated(set_position, old(self).data(), q@, mid) && zip_updated(
                    set_velocity,
                    mid,
                    qd@,
                    final(self).data(),
                ),
    {
        let ghost before = self.data();
        let ghost parents = self.parents();
        Self::zip_into(&mut self.joints, q, &set_position);
        let ghost mid = self.data();
        Self::zip_into(&mut self.joints, qd, &set_velocity);
        proof {
            assert(zip_updated(set_position, before, q@, mid));
        }
    }

    fn zip_into<T, F: Fn(&D, &T) -> D>(joints: &mut Vec<Joint<D>>, values: &Vec<T>, f: &F)
        requires
            forall|x: &D, y: &T| f.requires((x, y)),
        ensures
            parents_of(final(joints)@) == parents_of(old(joints)@),
            zip_updated(*f, data_of(old(joints)@), values@, data_of(final(joints)@)),
    {
        let n = joints.len();
        let m = values.len();
        let ghost before = data_of(joints@);
        let ghost parents = parents_of(joints@);
        let mut i: usize = 0;
        while i < n && i < m
            invariant
                i <= n,
                i <= m,
                n == joints@.len(),
                n == before.len(),
                m == values@.len(),
                before == data_of(old(joints)@),
                parents == parents_of(old(joints)@),
                forall|x: &D, y: &T| f.requires((x, y)),
                forall|j: int| #![trigger joints@[j]] 0 <= j < n ==> joints@[j].parent == parents[j],
                forall|j: int| #![trigger joints@[j]] i <= j < n ==> joints@[j].data == before[j],
                forall|j: int| 0 <= j < i ==> call_ensures(*f, (&before[j], &values@[j]), #[trigger] data_of(joints@)[j]),
            decreases n - i,
        {
            let parent = joints[i].parent;
            let new_data = f(&joints[i].data, &values[i]);
            let ghost prev = joints@;
            joints.set(i, Joint { parent, data: new_data });
            proof {
                assert forall|j: int| 0 <= j < i + 1 implies call_ensures(*f, (&before[j], &values@[j]), #[trigger] data_of(joints@)[j]) by {
                    if j < i {
                        assert(data_of(joints@)[j] == data_of(prev)[j]);
                    }
                }
            }
            i = i + 1;
        }
        proof {
            assert(parents_of(joints@) =~= parents);
            assert forall|j: int| 0 <= j < before.len() implies if j < values@.len() {
                call_ensures(*f, (&before[j], &values@[j]), #[trigger] data_of(joints@)[j])
            } else {
                data_of(joints@)[j] == before[j]
            } by {
                if j >= values@.len() {
                    assert(joints@[j].data == before[j]);
                }
            }
        }
    }

    /// Integrates the model's state over one step: each joint's data becomes
    /// what `step` makes of it.
    pub fn integrate_state<F: Fn(&D) -> D>(&mut self, step: F)
        requires
            forall|x: &D| step.requires((x,)),
        ensures
            final(self).base == old(self).base,
            final(self).parents() == old(self).parents(),
            mapped(step, old(self).data(), final(self).data()),
    {
        let n = self.joints.len();
        let ghost before = self.data();
        let ghost parents = self.parents();
        for i in 0..n
            invariant
                n == self.joints@.len(),
                before == old(self).data(),
                parents == old(self).parents(),
                self.base == old(self).base,
                forall|x: &D| step.requires((x,)),
                forall|j: int| #![trigger self.joints@[j]] 0 <= j < n ==> self.joints@[j].parent == parents[j],
                forall|j: int| #![trigger self.joints@[j]] i <= j < n ==> self.joints@[j].data == before[j],
                forall|j: int| 0 <= j < i ==> call_ensures(step, (&before[j],), #[trigger] self.data()[j]),
        {
            let parent = self.joints[i].parent;
            let new_data = step(&self.joints[i].data);
            let ghost prev = self.data();
            self.joints.set(i, Joint { parent, data: new_data });
            proof {
                assert forall|j: int| 0 <= j < i + 1 implies call_ensures(step, (&before[j],), #[trigger] self.data()[j]) by {
                    if j < i {
                        assert(self.data()[j] == prev[j]);
                    }
                }
            }
        }
        proof {
            assert(self.parents() =~= parents);
        }
    }
}

} // verus!
