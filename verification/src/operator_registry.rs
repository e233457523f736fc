//! The operator registry: at most one operator per role.
use vstd::prelude::*;

use crate::json::Json;
use crate::operators::{EngineOperator, OperatorRole};
use crate::rd::RunDescriptor;

verus! {

/// The position of a role in the standard cycle.
pub open spec fn role_index(r: OperatorRole) -> int {
    match r {
        OperatorRole::Ingest => 0,
        OperatorRole::Canon => 1,
        OperatorRole::Measure => 2,
        OperatorRole::Solve => 3,
        OperatorRole::Morph => 4,
        OperatorRole::Gate => 5,
        OperatorRole::Select => 6,
        OperatorRole::Merge => 7,
        OperatorRole::Emit => 8,
    }
}

fn role_slot(r: OperatorRole) -> (i: usize)
    ensures
        i == role_index(r),
{
    match r {
        OperatorRole::Ingest => 0,
        OperatorRole::Canon => 1,
        OperatorRole::Measure => 2,
        OperatorRole::Solve => 3,
        OperatorRole::Morph => 4,
        OperatorRole::Gate => 5,
        OperatorRole::Select => 6,
        OperatorRole::Merge => 7,
        OperatorRole::Emit => 8,
    }
}

/// Operators keyed by role: one slot per role.
pub struct OperatorRegistry {
    slots: Vec<Option<Box<dyn EngineOperator>>>,
}

impl OperatorRegistry {
    /// Nine slots; an operator sits in the slot of its own role.
    #[verifier::type_invariant]
    closed spec fn slots_by_role(self) -> bool {
        &&& self.slots@.len() == 9
        &&& forall|i: int|
            0 <= i < 9 ==> (#[trigger] self.slots@[i] matches Some(op) ==> role_index(op.spec_role()) == i)
    }

    /// The registered roles, each with its operator's name.
    pub closed spec fn names(self) -> Map<OperatorRole, Seq<char>> {
        Map::new(
            |r: OperatorRole| self.slots@[role_index(r)] is Some,
            |r: OperatorRole| self.slots@[role_index(r)]->Some_0.spec_name(),
        )
    }

    /// The step of the operator registered for role `r` (`None` when there
    /// is none, or when it fails).
    pub closed spec fn step(self, r: OperatorRole, state: Json, rd: RunDescriptor) -> Option<(Json, Json)> {
        match self.slots@[role_index(r)] {
            Some(op) => op.spec_step(state, rd),
            None => None,
        }
    }

    /// Whether the operator registered for `r` runs on `state` (any state
    /// when there is none).
    pub closed spec fn accepts(self, r: OperatorRole, state: Json) -> bool {
        match self.slots@[role_index(r)] {
            Some(op) => op.spec_accepts(state),
            None => true,
        }
    }

    fn empty_slots() -> (slots: Vec<Option<Box<dyn EngineOperator>>>)
        ensures
            slots@.len() == 9,
            forall|k: int| 0 <= k < 9 ==> #[trigger] slots@[k] is None,
    {
        let mut slots: Vec<Option<Box<dyn EngineOperator>>> = Vec::new();
        let mut i: usize = 0;
        while i < 9
            invariant
                i <= 9,
                slots@.len() == i,
                forall|k: int| 0 <= k < i ==> #[trigger] slots@[k] is None,
            decreases 9 - i,
        {
            slots.push(None);
            i = i + 1;
        }
        slots
    }

    /// The registered roles whose operators are total.
    pub closed spec fn total_roles(self) -> Set<OperatorRole> {
        Set::new(|r: OperatorRole| self.slots@[role_index(r)] is Some && self.slots@[role_index(r)]->Some_0.spec_total())
    }

    /// Every role with a total operator is registered.
    pub proof fn lemma_total_roles_registered(self)
        ensures
            forall|r: OperatorRole| #[trigger] self.total_roles().contains(r) ==> self.names().contains_key(r),
    {
    }

    /// An empty registry.
    pub fn new() -> (r: Self)
        ensures
            r.names() == Map::<OperatorRole, Seq<char>>::empty(),
            r.total_roles() == Set::<OperatorRole>::empty(),
            forall|ro: OperatorRole, state: Json, rd: RunDescriptor| #[trigger] r.step(ro, state, rd) is None,
    {
        let r = OperatorRegistry { slots: Self::empty_slots() };
        assert(r.names() =~= Map::<OperatorRole, Seq<char>>::empty());
        assert(r.total_roles() =~= Set::<OperatorRole>::empty());
        r
    }

    /// Registers `op` under its role, replacing an operator of that role.
    pub fn register(&mut self, op: Box<dyn EngineOperator>)
        ensures
            final(self).names() == old(self).names().insert(op.spec_role(), op.spec_name()),
            final(self).total_roles() == (if op.spec_total() {
                old(self).total_roles().insert(op.spec_role())
            } else {
                old(self).total_roles().remove(op.spec_role())
            }),
            forall|r: OperatorRole, state: Json, rd: RunDescriptor|
                #[trigger] final(self).step(r, state, rd) == (if r == op.spec_role() {
                    op.spec_step(state, rd)
                } else {
                    old(self).step(r, state, rd)
                }),
            forall|r: OperatorRole, state: Json|
                #[trigger] final(self).accepts(r, state) == (if r == op.spec_role() {
                    op.spec_accepts(state)
                } else {
                    old(self).accepts(r, state)
                }),
    {
        proof {
            use_type_invariant(&*self);
        }
        let ghost old_names = self.names();
        let ghost old_totals = self.total_roles();
        let ghost total = op.spec_total();
        let ghost old_slots = self.slots@;
        assert(old_slots.len() == 9);
        let ghost role = op.spec_role();
        let ghost name = op.spec_name();
        let ghost g_op = op;
        let i = role_slot(op.role());
        let mut v = Self::empty_slots();
        std::mem::swap(&mut v, &mut self.slots);
        let ghost before = v@;
        assert(before.len() == 9);
        let x = Some(op);
        v.set(i, x);
        assert(v@ == before.update(i as int, x));
        assert(v@[i as int] == Some(op));
        assert(v@[i as int]->Some_0.spec_total() == total);
        assert(role_index(role) == i);
        assert(v@[i as int]->Some_0.spec_role() == role);
        assert(forall|k: int| 0 <= k < 9 && k != i ==> v@[k] == before[k]);
        assert(forall|k: int| 0 <= k < 9 && k != i ==> (#[trigger] before[k] matches Some(o) ==> role_index(o.spec_role()) == k));
        assert(forall|k: int| 0 <= k < 9 ==> (#[trigger] v@[k] matches Some(o) ==> role_index(o.spec_role()) == k));
        self.slots = v;
        proof {
            assert forall|r: OperatorRole| #![auto] role_index(r) == i ==> r == role by {}
            assert forall|r: OperatorRole, state: Json, rd: RunDescriptor| #[trigger] self.step(r, state, rd) == (if r == role {
                g_op.spec_step(state, rd)
            } else {
                old(self).step(r, state, rd)
            }) by {
                if r != role {
                    assert(role_index(r) != i);
                }
            }
            assert forall|r: OperatorRole, state: Json| #[trigger] self.accepts(r, state) == (if r == role {
                g_op.spec_accepts(state)
            } else {
                old(self).accepts(r, state)
            }) by {
                if r != role {
                    assert(role_index(r) != i);
                }
            }
            assert(self.names() =~= old_names.insert(role, name));
            if total {
                assert(self.total_roles() =~= old_totals.insert(role));
            } else {
                assert(self.total_roles() =~= old_totals.remove(role));
            }
        }
    }

    /// The operator registered for `role`, if any.
    pub fn get(&self, role: &OperatorRole) -> (r: Option<&Box<dyn EngineOperator>>)
        ensures
            r is Some <==> self.names().contains_key(*role),
            r matches Some(op) ==> op.spec_role() == *role && op.spec_name() == self.names()[*role]
                && (op.spec_total() <==> self.total_roles().contains(*role))
                && (forall|state: Json, rd: RunDescriptor| #[trigger] op.spec_step(state, rd) == self.step(*role, state, rd))
                && (forall|state: Json| #[trigger] op.spec_accepts(state) == self.accepts(*role, state)),
    {
        proof {
            use_type_invariant(self);
        }
        let i = role_slot(*role);
        match &self.slots[i] {
            Some(b) => {
                proof {
                    assert(self.slots@[i as int] matches Some(op) && role_index(op.spec_role()) == i);
                    assert forall|r: OperatorRole| #![auto] role_index(r) == i ==> r == *role by {}
                }
                Some(b)
            },
            None => None,
        }
    }
}

impl Default for OperatorRegistry {
    fn default() -> (r: Self)
        ensures
            r.names() == Map::<OperatorRole, Seq<char>>::empty(),
            r.total_roles() == Set::<OperatorRole>::empty(),
    {
        Self::new()
    }
}

} // verus!
