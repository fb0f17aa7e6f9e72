//! The registry: which program instance stands under which identity.

use crate::common::{zkVMVendor, ProgramError, ProgramID};
use crate::config::{PoostConfig, ProgramInstanceParams};
use crate::program::{instance_outcome, ProgramInstance};
use vstd::prelude::*;

verus! {

/// No two entries share an identity.
pub open spec fn ids_distinct<V>(entries: Seq<ProgramInstance<V>>) -> bool {
    forall|i: int, j: int|
        0 <= i < j < entries.len() ==> (#[trigger] entries[i]).program_id@ != (
        #[trigger] entries[j]).program_id@
}

/// Some entry stands under the identity `id`.
pub open spec fn holds_id<V>(entries: Seq<ProgramInstance<V>>, id: Seq<char>) -> bool {
    exists|i: int| 0 <= i < entries.len() && (#[trigger] entries[i]).program_id@ == id
}

/// Where the entry under `id` stands, if there is one.
pub open spec fn position_of<V>(entries: Seq<ProgramInstance<V>>, id: Seq<char>) -> int {
    choose|i: int| 0 <= i < entries.len() && (#[trigger] entries[i]).program_id@ == id
}

/// The entries as a map from identity to instance.
pub open spec fn entries_map<V>(entries: Seq<ProgramInstance<V>>) -> Map<
    Seq<char>,
    ProgramInstance<V>,
> {
    Map::new(|id: Seq<char>| holds_id(entries, id), |id: Seq<char>| entries[position_of(entries, id)])
}

/// The entries after `instance` is registered: it takes the place of the
/// entry that had its identity, or comes last if there was none.
pub open spec fn registered<V>(
    entries: Seq<ProgramInstance<V>>,
    instance: ProgramInstance<V>,
) -> Seq<ProgramInstance<V>> {
    if holds_id(entries, instance.program_id@) {
        entries.update(position_of(entries, instance.program_id@), instance)
    } else {
        entries.push(instance)
    }
}

/// The entries after each of `instances` is registered in turn, starting
/// from nothing.
pub open spec fn registered_all<V>(instances: Seq<ProgramInstance<V>>) -> Seq<ProgramInstance<V>>
    decreases instances.len(),
{
    if instances.len() == 0 {
        Seq::empty()
    } else {
        registered(registered_all(instances.drop_last()), instances.last())
    }
}

/// Registering keeps identities distinct, and on the map it is an insertion
/// under the instance's identity: the instance is found there, and every
/// other identity keeps what it had.
pub proof fn lemma_registered<V>(entries: Seq<ProgramInstance<V>>, instance: ProgramInstance<V>)
    requires
        ids_distinct(entries),
    ensures
        ids_distinct(registered(entries, instance)),
        entries_map(registered(entries, instance)) == entries_map(entries).insert(
            instance.program_id@,
            instance,
        ),
        registered(entries, instance).len() >= entries.len(),
{
    let id = instance.program_id@;
    let after = registered(entries, instance);
    let p = if holds_id(entries, id) {
        position_of(entries, id)
    } else {
        entries.len() as int
    };
    assert(0 <= p < after.len() && after[p] == instance);
    assert forall|k: int| 0 <= k < after.len() && k != p implies after[k] == entries[k]
        && entries[k].program_id@ != id by {
        if holds_id(entries, id) {
            assert(entries[p].program_id@ == id);
        }
    }
    assert forall|i: int, j: int| 0 <= i < j < after.len() implies (#[trigger] after[i]).program_id@
        != (#[trigger] after[j]).program_id@ by {
        if i != p && j != p {
            assert(entries[i].program_id@ != entries[j].program_id@);
        }
    }
    let want = entries_map(entries).insert(id, instance);
    let got = entries_map(after);
    assert forall|key: Seq<char>| got.contains_key(key) <==> want.contains_key(key) by {
        if holds_id(after, key) {
            let k = position_of(after, key);
            if k != p {
                assert(entries[k].program_id@ == key);
            }
        }
        if key == id {
            assert(after[p].program_id@ == key);
        } else if holds_id(entries, key) {
            let k = position_of(entries, key);
            assert(after[k].program_id@ == key);
        }
    }
    assert forall|key: Seq<char>| got.contains_key(key) implies got[key] == want[key] by {
        let k = position_of(after, key);
        assert(after[k].program_id@ == key);
        if key == id {
            if k != p {
                assert(after[k].program_id@ != after[p].program_id@);
            }
        } else {
            assert(k != p);
            let q = position_of(entries, key);
            assert(entries[k].program_id@ == key);
            if q != k {
                assert(entries[q].program_id@ != entries[k].program_id@);
            }
        }
    }
    assert(got =~= want);
}

/// Registering a second instance under the identity of a first leaves what
/// registering the second alone would have left: the first is gone, and
/// the identity still has one entry.
pub proof fn lemma_register_twice_keeps_last<V>(
    entries: Seq<ProgramInstance<V>>,
    first: ProgramInstance<V>,
    second: ProgramInstance<V>,
)
    requires
        ids_distinct(entries),
        first.program_id@ == second.program_id@,
    ensures
        registered(registered(entries, first), second) == registered(entries, second),
        registered(registered(entries, first), second).len() == registered(entries, first).len(),
        entries_map(registered(registered(entries, first), second))[second.program_id@] == second,
{
    let id = first.program_id@;
    let once = registered(entries, first);
    lemma_registered(entries, first);
    lemma_registered(once, second);
    if holds_id(entries, id) {
        let p = position_of(entries, id);
        assert(once[p].program_id@ == id);
        let q = position_of(once, id);
        if q != p {
            assert(once[q].program_id@ != once[p].program_id@);
        }
        assert(registered(once, second) =~= registered(entries, second));
    } else {
        let p = entries.len() as int;
        assert(once[p].program_id@ == id);
        let q = position_of(once, id);
        if q != p {
            assert(once[q].program_id@ != once[p].program_id@);
        }
        assert(registered(once, second) =~= registered(entries, second));
    }
}

/// Whether `steps` are the outcomes of making ready, in order, the first
/// programs of `params`, as many as there are steps, with `build` standing
/// for the backend. No step follows one that failed.
pub open spec fn pipeline_steps<V, F: Fn(zkVMVendor, String) -> Result<(Vec<u8>, V), String>>(
    params: Seq<ProgramInstanceParams>,
    build: F,
    steps: Seq<Result<ProgramInstance<V>, ProgramError>>,
) -> bool {
    &&& steps.len() <= params.len()
    &&& forall|i: int|
        0 <= i < steps.len() ==> instance_outcome(
            params[i].name,
            params[i].program_path,
            params[i].zkvm_name,
            build,
            #[trigger] steps[i],
        )
    &&& forall|i: int| 0 <= i < steps.len() - 1 ==> (#[trigger] steps[i]) is Ok
}

/// The instances that `steps` gave, one for each step.
pub open spec fn instances_of<V>(steps: Seq<Result<ProgramInstance<V>, ProgramError>>) -> Seq<
    ProgramInstance<V>,
> {
    Seq::new(steps.len(), |i: int| steps[i]->Ok_0)
}

/// Whether `r` is what start-up returns for `params`: the registry in which
/// every program was registered in order, if each could be made ready; else
/// the error of the first that could not, with no later program tried.
pub open spec fn init_outcome<V, F: Fn(zkVMVendor, String) -> Result<(Vec<u8>, V), String>>(
    params: Seq<ProgramInstanceParams>,
    build: F,
    r: Result<AppState<V>, ProgramError>,
) -> bool {
    exists|steps: Seq<Result<ProgramInstance<V>, ProgramError>>|
        {
            &&& #[trigger] pipeline_steps(params, build, steps)
            &&& match r {
                Ok(state) => {
                    &&& steps.len() == params.len()
                    &&& forall|i: int| 0 <= i < steps.len() ==> (#[trigger] steps[i]) is Ok
                    &&& state.entries() == registered_all(instances_of(steps))
                },
                Err(e) => steps.len() > 0 && steps.last() == Err::<ProgramInstance<V>, ProgramError>(e),
            }
        }
}

/// The registry of program instances, keyed by program identity.
#[derive(Debug)]
pub struct AppState<V> {
    programs: Vec<ProgramInstance<V>>,
}

impl<V> View for AppState<V> {
    type V = Map<Seq<char>, ProgramInstance<V>>;

    open spec fn view(&self) -> Map<Seq<char>, ProgramInstance<V>> {
        entries_map(self.entries())
    }
}

impl<V> AppState<V> {
    /// The registered instances, in the order in which their identities
    /// were first registered.
    pub closed spec fn entries(&self) -> Seq<ProgramInstance<V>> {
        self.programs@
    }

    #[verifier::type_invariant]
    spec fn well_formed(&self) -> bool {
        ids_distinct(self.programs@)
    }

    /// A registry with no program in it.
    pub fn new() -> (state: Self)
        ensures
            state.entries() == Seq::<ProgramInstance<V>>::empty(),
            state@ == Map::<Seq<char>, ProgramInstance<V>>::empty(),
    {
        let state = AppState { programs: Vec::new() };
        assert(state@ =~= Map::<Seq<char>, ProgramInstance<V>>::empty());
        state
    }

    /// Fills a registry from the configuration: makes each configured
    /// program ready in order, with `build` compiling it and bringing up
    /// its runtime, and registers it. The first program that cannot be made
    /// ready ends start-up with its error.
    pub fn init<F>(config: &PoostConfig, build: F) -> (r: Result<Self, ProgramError>) where
        F: Fn(zkVMVendor, String) -> Result<(Vec<u8>, V), String>,

        requires
            forall|i: int, vendor: zkVMVendor|
                0 <= i < config.program_instances@.len() ==> #[trigger] build.requires(
                    (vendor, config.program_instances@[i].program_path),
                ),
        ensures
            init_outcome(config.program_instances@, build, r),
            r matches Ok(state) ==> ids_distinct(state.entries()),
    {
        let mut state = AppState::new();
        let ghost params = config.program_instances@;
        let ghost mut steps: Seq<Result<ProgramInstance<V>, ProgramError>> = Seq::empty();
        let n = config.program_instances.len();
        let mut i: usize = 0;
        assert(instances_of(steps) =~= Seq::<ProgramInstance<V>>::empty());
        while i < n
            invariant
                i <= n,
                n == params.len(),
                params == config.program_instances@,
                steps.len() == i,
                pipeline_steps(params, build, steps),
                forall|j: int| 0 <= j < i ==> (#[trigger] steps[j]) is Ok,
                state.entries() == registered_all(instances_of(steps)),
                ids_distinct(state.entries()),
                forall|k: int, vendor: zkVMVendor|
                    0 <= k < params.len() ==> #[trigger] build.requires(
                        (vendor, params[k].program_path),
                    ),
            decreases n - i,
        {
            let program_params = &config.program_instances[i];
            let made = ProgramInstance::new(
                program_params.name.clone(),
                program_params.program_path.clone(),
                program_params.zkvm_name.clone(),
                &build,
            );
            let ghost before = steps;
            proof {
                steps = steps.push(made);
                assert(instance_outcome(
                    params[i as int].name,
                    params[i as int].program_path,
                    params[i as int].zkvm_name,
                    build,
                    made,
                ));
                assert(pipeline_steps(params, build, steps));
            }
            match made {
                Ok(instance) => {
                    proof {
                        assert(instances_of(steps).drop_last() =~= instances_of(before));
                        assert(instances_of(steps).last() == instance);
                    }
                    state.register(instance);
                },
                Err(e) => {
                    return Err(e);
                },
            }
            i = i + 1;
        }
        Ok(state)
    }

    /// Registers `instance` under its identity. An instance that was
    /// registered under the same identity is replaced.
    pub fn register(&mut self, instance: ProgramInstance<V>)
        ensures
            final(self).entries() == registered(old(self).entries(), instance),
            final(self)@ == old(self)@.insert(instance.program_id@, instance),
            ids_distinct(final(self).entries()),
    {
        proof {
            use_type_invariant(&*self);
            lemma_registered(self.programs@, instance);
        }
        let mut programs: Vec<ProgramInstance<V>> = Vec::new();
        std::mem::swap(&mut self.programs, &mut programs);
        let n = programs.len();
        let mut i: usize = 0;
        let mut found: Option<usize> = None;
        while i < n && found.is_none()
            invariant
                i <= n,
                n == programs@.len(),
                match found {
                    Some(at) => at < n && programs@[at as int].program_id@ == instance.program_id@,
                    None => forall|j: int|
                        0 <= j < i ==> (#[trigger] programs@[j]).program_id@
                            != instance.program_id@,
                },
            decreases n - i + (if found.is_none() { 1int } else { 0int }),
        {
            if programs[i].program_id == instance.program_id {
                found = Some(i);
            } else {
                i = i + 1;
            }
        }
        match found {
            Some(at) => {
                proof {
                    let p = position_of(programs@, instance.program_id@);
                    if p != at {
                        assert(programs@[p].program_id@ != programs@[at as int].program_id@);
                    }
                }
                programs.set(at, instance);
            },
            None => {
                programs.push(instance);
            },
        }
        self.programs = programs;
    }

    /// The instance registered under `program_id`, if there is one.
    pub fn lookup(&self, program_id: &ProgramID) -> (found: Option<&ProgramInstance<V>>)
        ensures
            match found {
                Some(instance) => {
                    &&& self@.contains_key(program_id@)
                    &&& *instance == self@[program_id@]
                    &&& instance.program_id@ == program_id@
                },
                None => !self@.contains_key(program_id@),
            },
    {
        proof {
            use_type_invariant(self);
        }
        let n = self.programs.len();
        let mut i: usize = 0;
        while i < n
            invariant
                i <= n,
                n == self.programs@.len(),
                ids_distinct(self.programs@),
                forall|j: int|
                    0 <= j < i ==> (#[trigger] self.programs@[j]).program_id@ != program_id@,
            decreases n - i,
        {
            if self.programs[i].program_id == *program_id {
                proof {
                    let p = position_of(self.programs@, program_id@);
                    if p != i {
                        assert(self.programs@[p].program_id@ != self.programs@[i as int].program_id@);
                    }
                }
                return Some(&self.programs[i]);
            }
            i = i + 1;
        }
        None
    }

    /// Every registered instance, in the order of [`AppState::entries`].
    pub fn list(&self) -> (all: &[ProgramInstance<V>])
        ensures
            all@ == self.entries(),
            ids_distinct(all@),
    {
        proof {
            use_type_invariant(self);
        }
        self.programs.as_slice()
    }
}

} // verus!
