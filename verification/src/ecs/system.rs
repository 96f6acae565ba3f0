use crate::type_key::type_key;
use std::collections::HashMap;
use vstd::prelude::*;

verus! {

broadcast use vstd::std_specs::hash::group_hash_axioms;

/// The systems of every stage, stages in the order they were first registered and each
/// stage's systems in the order they were registered.
pub open spec fn run_order<S>(stages: Seq<u64>, systems: Map<u64, Seq<S>>) -> Seq<S>
    decreases stages.len(),
{
    if stages.len() == 0 {
        Seq::empty()
    } else {
        run_order(stages.drop_last(), systems) + systems[stages.last()]
    }
}

/// The systems registered so far under `stage`, empty when none were.
pub open spec fn systems_of<S>(systems: Map<u64, Seq<S>>, stage: u64) -> Seq<S> {
    if systems.contains_key(stage) {
        systems[stage]
    } else {
        Seq::empty()
    }
}

/// The schedule after registering `system` in the stage `stage_id`: a stage seen for the
/// first time comes after the others, and the system after the stage's other systems.
pub open spec fn registered<S>(
    stages: Seq<u64>,
    systems: Map<u64, Seq<S>>,
    stage_id: u64,
    system: S,
    new_stages: Seq<u64>,
    new_systems: Map<u64, Seq<S>>,
) -> bool {
    &&& new_stages == (if stages.contains(stage_id) {
        stages
    } else {
        stages.push(stage_id)
    })
    &&& new_systems == systems.insert(stage_id, systems_of(systems, stage_id).push(system))
}

/// Systems grouped by stage; stages run in the order they were first registered.
pub struct Schedule<S> {
    stages: Vec<u64>,
    stages_systems: HashMap<u64, Vec<S>>,
}

impl<S> Schedule<S> {
    /// Each stage is listed once, and exactly the listed stages have systems.
    pub closed spec fn wf(&self) -> bool {
        &&& self.stages@.no_duplicates()
        &&& forall|st: u64| #[trigger] self.stages_systems@.contains_key(st) <==> self.stages@.contains(st)
    }

    /// The stages in run order.
    pub closed spec fn spec_stages(&self) -> Seq<u64> {
        self.stages@
    }

    /// The systems of each stage.
    pub closed spec fn spec_systems(&self) -> Map<u64, Seq<S>> {
        self.stages_systems@.map_values(|v: Vec<S>| v@)
    }

    pub fn new() -> (s: Self)
        ensures
            s.wf(),
            s.spec_stages() == Seq::<u64>::empty(),
            s.spec_systems() == Map::<u64, Seq<S>>::empty(),
    {
        let s = Schedule { stages: Vec::new(), stages_systems: HashMap::new() };
        proof {
            assert(s.spec_systems() =~= Map::<u64, Seq<S>>::empty());
        }
        s
    }

    /// Registers `system` in the stage keyed `stage_id`; a stage seen for the first time runs
    /// after every stage registered before it.
    pub fn register_system_for_key(&mut self, stage_id: u64, system: S)
        requires
            old(self).wf(),
        ensures
            final(self).wf(),
            registered(old(self).spec_stages(), old(self).spec_systems(), stage_id, system, final(self).spec_stages(), final(self).spec_systems()),
    {
        let mut systems = match self.stages_systems.remove(&stage_id) {
            Some(v) => v,
            None => {
                self.stages.push(stage_id);
                proof {
                    assert forall|i: int, j: int| 0 <= i < j < self.stages@.len() implies self.stages@[i] != self.stages@[j] by {
                        if j == self.stages@.len() - 1 {
                            assert(old(self).stages@.contains(old(self).stages@[i]));
                        }
                    }
                }
                Vec::new()
            },
        };
        proof {
            assert(systems@ == systems_of(old(self).spec_systems(), stage_id));
        }
        systems.push(system);
        self.stages_systems.insert(stage_id, systems);
        proof {
            assert(self.spec_systems() =~= old(self).spec_systems().insert(
                stage_id,
                systems_of(old(self).spec_systems(), stage_id).push(system),
            ));
            assert forall|st: u64| #[trigger] self.stages_systems@.contains_key(st) <==> self.stages@.contains(st) by {
                if st != stage_id {
                    assert(old(self).stages_systems@.contains_key(st) <==> old(self).stages@.contains(st));
                    if self.stages@.contains(st) && !old(self).stages@.contains(st) {
                        let k = choose|k: int| 0 <= k < self.stages@.len() && self.stages@[k] == st;
                        assert(k < old(self).stages@.len());
                    }
                    if old(self).stages@.contains(st) {
                        let k = choose|k: int| 0 <= k < old(self).stages@.len() && old(self).stages@[k] == st;
                        assert(self.stages@[k] == st);
                    }
                } else {
                    assert(self.stages@.contains(stage_id)) by {
                        if old(self).stages@.contains(stage_id) {
                            let k = choose|k: int| 0 <= k < old(self).stages@.len() && old(self).stages@[k] == stage_id;
                            assert(self.stages@[k] == stage_id);
                        } else {
                            assert(self.stages@[self.stages@.len() - 1] == stage_id);
                        }
                    }
                }
            }
        }
    }

    /// Registers `system` in the stage `L`, keyed by the key of `L`'s type, as
    /// `register_system_for_key` does.
    pub fn register_system_for_stage<L: 'static>(&mut self, system: S)
        requires
            old(self).wf(),
        ensures
            final(self).wf(),
            exists|stage_id: u64| #[trigger] registered(
                old(self).spec_stages(),
                old(self).spec_systems(),
                stage_id,
                system,
                final(self).spec_stages(),
                final(self).spec_systems(),
            ),
    {
        let stage_id = type_key::<L>();
        self.register_system_for_key(stage_id, system);
        assert(registered(old(self).spec_stages(), old(self).spec_systems(), stage_id, system, self.spec_stages(), self.spec_systems()));
    }

    /// Registers `system` in the stage of `_stage`, as `register_system_for_stage` does.
    pub fn add_system<L: 'static>(&mut self, _stage: &L, system: S)
        requires
            old(self).wf(),
        ensures
            final(self).wf(),
            exists|stage_id: u64| #[trigger] registered(
                old(self).spec_stages(),
                old(self).spec_systems(),
                stage_id,
                system,
                final(self).spec_stages(),
                final(self).spec_systems(),
            ),
    {
        self.register_system_for_stage::<L>(system);
    }

    /// The systems in the order they run: stage by stage, in registration order.
    pub fn systems_in_run_order(&self) -> (r: Vec<&S>)
        requires
            self.wf(),
        ensures
            r@.len() == run_order(self.spec_stages(), self.spec_systems()).len(),
            forall|i: int| 0 <= i < r@.len() ==> *r@[i] == run_order(self.spec_stages(), self.spec_systems())[i],
    {
        let mut r: Vec<&S> = Vec::new();
        let mut k: usize = 0;
        while k < self.stages.len()
            invariant
                self.wf(),
                k <= self.stages@.len(),
                r@.len() == run_order(self.stages@.take(k as int), self.spec_systems()).len(),
                forall|i: int| 0 <= i < r@.len() ==> *r@[i] == run_order(self.stages@.take(k as int), self.spec_systems())[i],
            decreases self.stages@.len() - k,
        {
            let stage = self.stages[k];
            proof {
                assert(self.stages@.contains(stage));
                assert(self.stages_systems@.contains_key(stage));
            }
            let systems = self.stages_systems.get(&stage).unwrap();
            let ghost before = r@;
            let ghost prefix = run_order(self.stages@.take(k as int), self.spec_systems());
            for j in 0..systems.len()
                invariant
                    r@.len() == before.len() + j,
                    before.len() == prefix.len(),
                    forall|i: int| 0 <= i < before.len() ==> r@[i] == before[i],
                    forall|i: int| 0 <= i < j ==> *r@[before.len() + i] == systems@[i],
            {
                r.push(&systems[j]);
            }
            proof {
                assert(self.stages@.take(k + 1).drop_last() =~= self.stages@.take(k as int));
                assert(self.spec_systems()[stage] == systems@);
                let next = run_order(self.stages@.take(k + 1), self.spec_systems());
                assert(next == prefix + systems@);
                assert forall|i: int| 0 <= i < r@.len() implies *r@[i] == next[i] by {
                    if i < before.len() {
                        assert(*before[i] == prefix[i]);
                    } else {
                        assert(*r@[i] == systems@[i - before.len()]);
                    }
                }
            }
            k = k + 1;
        }
        proof {
            assert(self.stages@.take(self.stages@.len() as int) =~= self.stages@);
        }
        r
    }
}

} // verus!
