//! The tracking scope: a scope's hook sequence, its dependencies, and the test that
//! decides whether it must run again.
use vstd::prelude::*;

use bevy::ecs::world::World;
use bevy::platform::collections::HashSet;

use crate::hooks::{hook_cloned, teardown_cmds, HookKind, HookState, TeardownCmd};
use crate::outside::{
    component_elements, component_set, insert_component, insert_resource, new_component_set,
    new_resource_set, probe_component, probe_resource, resource_elements, resource_set,
    tick_is_newer, tick_newer, ComponentDep,
};

verus! {

/// Whether one component dependency counts as changed, given what the world reports
/// of it (`None`: the entity is gone) and the ticks of the last run and of now: the
/// component changed since the last run, or its presence flipped from present to
/// absent, which includes the entity being gone.
pub open spec fn component_dep_changed(
    dep: ComponentDep,
    probe: Option<(Option<u32>, bool)>,
    last_run: u32,
    this_run: u32,
) -> bool {
    match probe {
        None => dep.2,
        Some((ticks, present)) => {
            (ticks.is_some() && tick_newer(ticks.unwrap(), last_run, this_run)) || (dep.2
                && !present)
        },
    }
}

/// Whether one resource dependency counts as changed, given its last-changed tick in
/// the world (`None`: the world holds no such resource).
pub open spec fn resource_dep_changed(probe: Option<u32>, last_run: u32, this_run: u32) -> bool {
    probe.is_some() && tick_newer(probe.unwrap(), last_run, this_run)
}

/// Decides one component dependency from what the world reported of it.
pub fn component_changed(
    dep: ComponentDep,
    probe: Option<(Option<u32>, bool)>,
    last_run: u32,
    this_run: u32,
) -> (r: bool)
    ensures
        r == component_dep_changed(dep, probe, last_run, this_run),
{
    match probe {
        None => dep.2,
        Some((ticks, present)) => {
            let newer = match ticks {
                Some(t) => tick_is_newer(t, last_run, this_run),
                None => false,
            };
            newer || (dep.2 && !present)
        },
    }
}

/// Decides one resource dependency from its last-changed tick in the world.
pub fn resource_changed(probe: Option<u32>, last_run: u32, this_run: u32) -> (r: bool)
    ensures
        r == resource_dep_changed(probe, last_run, this_run),
{
    match probe {
        Some(t) => tick_is_newer(t, last_run, this_run),
        None => false,
    }
}

/// Whether some component dependency in `deps` changed, where `probes[i]` is what
/// the world reported of `deps[i]`.
pub open spec fn any_component_changed(
    deps: Seq<ComponentDep>,
    probes: Seq<Option<(Option<u32>, bool)>>,
    last_run: u32,
    this_run: u32,
) -> bool {
    exists|i: int|
        0 <= i < deps.len() && #[trigger] component_dep_changed(
            deps[i],
            probes[i],
            last_run,
            this_run,
        )
}

/// Whether some resource dependency changed, where `probes[i]` is the last-changed
/// tick that the world reported of the i-th one.
pub open spec fn any_resource_changed(probes: Seq<Option<u32>>, last_run: u32, this_run: u32) -> bool {
    exists|i: int| 0 <= i < probes.len() && #[trigger] resource_dep_changed(probes[i], last_run, this_run)
}

/// Decides whether some component dependency changed, from what the world reported
/// of each of them.
pub fn components_changed_given(
    deps: &Vec<ComponentDep>,
    probes: &Vec<Option<(Option<u32>, bool)>>,
    last_run: u32,
    this_run: u32,
) -> (r: bool)
    requires
        deps@.len() == probes@.len(),
    ensures
        r == any_component_changed(deps@, probes@, last_run, this_run),
{
    let mut i: usize = 0;
    while i < deps.len()
        invariant
            i <= deps@.len(),
            deps@.len() == probes@.len(),
            forall|j: int|
                0 <= j < i ==> !#[trigger] component_dep_changed(
                    deps@[j],
                    probes@[j],
                    last_run,
                    this_run,
                ),
        decreases deps@.len() - i,
    {
        if component_changed(deps[i], probes[i], last_run, this_run) {
            return true;
        }
        i = i + 1;
    }
    false
}

/// Decides whether some resource dependency changed, from the last-changed tick that
/// the world reported of each of them.
pub fn resources_changed_given(probes: &Vec<Option<u32>>, last_run: u32, this_run: u32) -> (r: bool)
    ensures
        r == any_resource_changed(probes@, last_run, this_run),
{
    let mut i: usize = 0;
    while i < probes.len()
        invariant
            i <= probes@.len(),
            forall|j: int|
                0 <= j < i ==> !#[trigger] resource_dep_changed(probes@[j], last_run, this_run),
        decreases probes@.len() - i,
    {
        if resource_changed(probes[i], last_run, this_run) {
            return true;
        }
        i = i + 1;
    }
    false
}

/// What a `next_hook` call over `hooks`, from position `cursor`, returns and where
/// it leaves the cursor: a clone of the record there, or `None` past the end.
pub open spec fn next_hook_result<P: Clone>(
    hooks: Seq<HookState<P>>,
    cursor: nat,
    r: Option<HookState<P>>,
    cursor_after: nat,
) -> bool {
    if cursor < hooks.len() {
        &&& r.is_some()
        &&& hook_cloned(hooks[cursor as int], r.unwrap())
        &&& cursor_after == cursor + 1
    } else {
        r.is_none() && cursor_after == cursor
    }
}

/// Replaying hooks: when successive `next_hook` calls start from the first position of
/// the hooks that an earlier run recorded, the i-th call returns a record with the
/// identity of the i-th hook (same entities, cells, handles, observers and targets).
pub proof fn lemma_replay_stable<P: Clone>(
    hooks: Seq<HookState<P>>,
    results: Seq<Option<HookState<P>>>,
    cursors: Seq<nat>,
)
    requires
        cursors.len() == results.len() + 1,
        cursors[0] == 0,
        forall|i: int|
            0 <= i < results.len() ==> next_hook_result(
                hooks,
                #[trigger] cursors[i],
                results[i],
                cursors[i + 1],
            ),
    ensures
        forall|i: int|
            0 <= i < results.len() && i < hooks.len() ==> {
                &&& (#[trigger] results[i]).is_some()
                &&& results[i].unwrap().identity() == hooks[i].identity()
            },
{
    assert forall|i: int| 0 <= i <= results.len() && i <= hooks.len() implies cursors[i] == i by {
        lemma_cursor_follows(hooks, results, cursors, i);
    }
    assert forall|i: int| 0 <= i < results.len() && i < hooks.len() implies {
        &&& (#[trigger] results[i]).is_some()
        &&& results[i].unwrap().identity() == hooks[i].identity()
    } by {
        assert(cursors[i] == i);
        assert(next_hook_result(hooks, cursors[i], results[i], cursors[i + 1]));
    }
}

proof fn lemma_cursor_follows<P: Clone>(
    hooks: Seq<HookState<P>>,
    results: Seq<Option<HookState<P>>>,
    cursors: Seq<nat>,
    i: int,
)
    requires
        cursors.len() == results.len() + 1,
        cursors[0] == 0,
        forall|j: int|
            0 <= j < results.len() ==> next_hook_result(
                hooks,
                #[trigger] cursors[j],
                results[j],
                cursors[j + 1],
            ),
        0 <= i <= results.len(),
        i <= hooks.len(),
    ensures
        cursors[i] == i,
    decreases i,
{
    if i > 0 {
        lemma_cursor_follows(hooks, results, cursors, i - 1);
        assert(next_hook_result(hooks, cursors[i - 1], results[i - 1], cursors[i]));
    }
}

/// How far `this_run` lies after tick `t`, counted modulo 2^32.
pub open spec fn wrap_dist(this_run: u32, t: u32) -> int {
    (this_run as int - t as int) % 0x1_0000_0000int
}

/// A tracked resource whose last change (tick `changed`) came after the scope's
/// previous run (`last_run`), both seen from `this_run` across any wraparound, counts
/// as changed; it stops counting once the scope's tick has caught up with the change
/// (`caught_up`, at or after `changed`). The previous run lies within bevy's
/// change-age window.
pub proof fn lemma_resource_change_detected(
    changed: u32,
    last_run: u32,
    this_run: u32,
    caught_up: u32,
)
    requires
        wrap_dist(this_run, changed) < wrap_dist(this_run, last_run),
        wrap_dist(this_run, last_run) <= crate::outside::MAX_CHANGE_AGE,
        wrap_dist(this_run, caught_up) <= wrap_dist(this_run, changed),
    ensures
        resource_dep_changed(Some(changed), last_run, this_run),
        !resource_dep_changed(Some(changed), caught_up, this_run),
        !resource_dep_changed(None, last_run, this_run),
{
}

/// A scope sees a change of a tracked resource: when the world reports, for one of its
/// resource dependencies, a change after the scope's last tick (within bevy's
/// change-age window), the scope must run again.
pub proof fn lemma_scope_sees_resource_change<P, C>(
    s: TrackingScope<P, C>,
    cdeps: Seq<ComponentDep>,
    cprobes: Seq<Option<(Option<u32>, bool)>>,
    rdeps: Seq<usize>,
    rprobes: Seq<Option<u32>>,
    tick: u32,
    i: int,
    changed: u32,
)
    requires
        s.fits_resources(rdeps, rprobes),
        0 <= i < rprobes.len(),
        rprobes[i] == Some(changed),
        wrap_dist(tick, changed) < wrap_dist(tick, s.last_tick()),
        wrap_dist(tick, s.last_tick()) <= crate::outside::MAX_CHANGE_AGE,
    ensures
        s.changed_by(cdeps, cprobes, rprobes, tick),
{
    assert(resource_dep_changed(rprobes[i], s.last_tick(), tick));
}

/// A scope whose only dependencies are resources, and which is not marked, need not
/// run again once its last tick has caught up with every change the world reports.
pub proof fn lemma_scope_quiet_when_caught_up<P, C>(
    s: TrackingScope<P, C>,
    cdeps: Seq<ComponentDep>,
    cprobes: Seq<Option<(Option<u32>, bool)>>,
    rdeps: Seq<usize>,
    rprobes: Seq<Option<u32>>,
    tick: u32,
)
    requires
        s.fits_components(cdeps, cprobes),
        s.fits_resources(rdeps, rprobes),
        s.component_dep_set() == Set::<ComponentDep>::empty(),
        !s.is_marked(),
        forall|i: int|
            0 <= i < rprobes.len() && (#[trigger] rprobes[i]).is_some() ==> wrap_dist(
                tick,
                s.last_tick(),
            ) <= wrap_dist(tick, rprobes[i].unwrap()),
    ensures
        !s.changed_by(cdeps, cprobes, rprobes, tick),
{
    if cdeps.len() > 0 {
        assert(cdeps.to_set().contains(cdeps[0]));
    }
    assert forall|i: int| 0 <= i < rprobes.len() implies !#[trigger] resource_dep_changed(
        rprobes[i],
        s.last_tick(),
        tick,
    ) by {
        if rprobes[i].is_some() {
            assert(wrap_dist(tick, s.last_tick()) <= wrap_dist(tick, rprobes[i].unwrap()));
        }
    }
}

/// The state of one reactive scope across its runs.
///
/// `P` is the payload that effect, memo and observer hooks carry; `C` is a cleanup
/// action, run when the scope is torn down.
pub struct TrackingScope<P, C> {
    hook_states: Vec<HookState<P>>,
    next_hook_index: usize,
    component_deps: HashSet<ComponentDep>,
    resource_deps: HashSet<usize>,
    changed: bool,
    tick: u32,
    cleanups: Vec<C>,
}

impl<P, C> TrackingScope<P, C> {
    #[verifier::type_invariant]
    spec fn cursor_in_bounds(&self) -> bool {
        self.next_hook_index <= self.hook_states.len()
    }

    /// Holds of every scope: the cursor never passes the end of the hooks.
    pub open spec fn wf(&self) -> bool {
        self.cursor() <= self.hooks().len()
    }

    /// The hook records, in call order.
    pub closed spec fn hooks(&self) -> Seq<HookState<P>> {
        self.hook_states@
    }

    /// The position of the next hook to satisfy during a replay.
    pub closed spec fn cursor(&self) -> nat {
        self.next_hook_index as nat
    }

    /// The component dependencies subscribed to.
    pub closed spec fn component_dep_set(&self) -> Set<ComponentDep> {
        component_set(self.component_deps)
    }

    /// The resource dependencies subscribed to.
    pub closed spec fn resource_dep_set(&self) -> Set<usize> {
        resource_set(self.resource_deps)
    }

    /// The engine tick of the previous run.
    pub closed spec fn last_tick(&self) -> u32 {
        self.tick
    }

    /// Whether the scope was marked as changed from outside.
    pub closed spec fn is_marked(&self) -> bool {
        self.changed
    }

    /// The cleanup actions, in the order they were added.
    pub closed spec fn cleanup_seq(&self) -> Seq<C> {
        self.cleanups@
    }

    /// Whether `self` holds the same dependencies, mark, tick and cleanups as `other`.
    pub open spec fn keeps_rest_of(&self, other: &Self) -> bool {
        &&& self.component_dep_set() == other.component_dep_set()
        &&& self.resource_dep_set() == other.resource_dep_set()
        &&& self.is_marked() == other.is_marked()
        &&& self.last_tick() == other.last_tick()
        &&& self.cleanup_seq() == other.cleanup_seq()
    }

    /// Whether the hook at the cursor, if there is one, has variant `k`.
    pub open spec fn next_is(&self, k: HookKind) -> bool {
        self.cursor() < self.hooks().len() ==> self.hooks()[self.cursor() as int].kind() == k
    }

    /// A new scope with no hooks and no dependencies, whose previous run is `tick`.
    pub fn new(tick: u32) -> (r: Self)
        ensures
            r.wf(),
            r.hooks() == Seq::<HookState<P>>::empty(),
            r.cursor() == 0,
            r.component_dep_set() == Set::<ComponentDep>::empty(),
            r.resource_dep_set() == Set::<usize>::empty(),
            !r.is_marked(),
            r.last_tick() == tick,
            r.cleanup_seq() == Seq::<C>::empty(),
    {
        TrackingScope {
            hook_states: Vec::new(),
            next_hook_index: 0,
            component_deps: new_component_set(),
            resource_deps: new_resource_set(),
            changed: false,
            tick,
            cleanups: Vec::new(),
        }
    }

    /// The engine tick of the previous run.
    pub fn tick(&self) -> (r: u32)
        ensures
            r == self.last_tick(),
    {
        self.tick
    }

    /// Records `tick` as the engine tick of the previous run.
    pub fn set_tick(&mut self, tick: u32)
        ensures
            final(self).wf(),
            final(self).last_tick() == tick,
            final(self).hooks() == old(self).hooks(),
            final(self).cursor() == old(self).cursor(),
            final(self).component_dep_set() == old(self).component_dep_set(),
            final(self).resource_dep_set() == old(self).resource_dep_set(),
            final(self).is_marked() == old(self).is_marked(),
            final(self).cleanup_seq() == old(self).cleanup_seq(),
    {
        proof {
            use_type_invariant(&*self);
        }
        self.tick = tick;
    }

    /// Overwrites the hook that the last `next_hook` returned.
    pub fn replace_hook(&mut self, hook: HookState<P>)
        requires
            0 < old(self).cursor() <= old(self).hooks().len(),
        ensures
            final(self).wf(),
            final(self).hooks() == old(self).hooks().update(old(self).cursor() - 1, hook),
            final(self).cursor() == old(self).cursor(),
            final(self).component_dep_set() == old(self).component_dep_set(),
            final(self).resource_dep_set() == old(self).resource_dep_set(),
            final(self).is_marked() == old(self).is_marked(),
            final(self).last_tick() == old(self).last_tick(),
            final(self).cleanup_seq() == old(self).cleanup_seq(),
    {
        proof {
            use_type_invariant(&*self);
        }
        let cursor = self.next_hook_index;
        self.next_hook_index = 0;
        let mut hooks = Vec::new();
        std::mem::swap(&mut hooks, &mut self.hook_states);
        hooks.set(cursor - 1, hook);
        std::mem::swap(&mut hooks, &mut self.hook_states);
        self.next_hook_index = cursor;
    }

    /// Appends a hook at the end of the sequence, where the cursor stands.
    pub fn push_hook(&mut self, hook: HookState<P>)
        requires
            old(self).cursor() == old(self).hooks().len(),
            old(self).cursor() < usize::MAX,
        ensures
            final(self).wf(),
            final(self).hooks() == old(self).hooks().push(hook),
            final(self).cursor() == old(self).cursor() + 1,
            final(self).component_dep_set() == old(self).component_dep_set(),
            final(self).resource_dep_set() == old(self).resource_dep_set(),
            final(self).is_marked() == old(self).is_marked(),
            final(self).last_tick() == old(self).last_tick(),
            final(self).cleanup_seq() == old(self).cleanup_seq(),
    {
        proof {
            use_type_invariant(&*self);
        }
        let cursor = self.next_hook_index;
        self.next_hook_index = 0;
        let mut hooks = Vec::new();
        std::mem::swap(&mut hooks, &mut self.hook_states);
        hooks.push(hook);
        std::mem::swap(&mut hooks, &mut self.hook_states);
        self.next_hook_index = cursor + 1;
    }

    /// The hook at the cursor, which then moves on; `None` when the sequence has no
    /// record at that position, so that the caller must create one.
    pub fn next_hook(&mut self) -> (r: Option<HookState<P>>)
        where
            P: Clone,
        ensures
            final(self).wf(),
            next_hook_result(old(self).hooks(), old(self).cursor(), r, final(self).cursor()),
            final(self).hooks() == old(self).hooks(),
            final(self).component_dep_set() == old(self).component_dep_set(),
            final(self).resource_dep_set() == old(self).resource_dep_set(),
            final(self).is_marked() == old(self).is_marked(),
            final(self).last_tick() == old(self).last_tick(),
            final(self).cleanup_seq() == old(self).cleanup_seq(),
    {
        proof {
            use_type_invariant(&*self);
        }
        if self.next_hook_index < self.hook_states.len() {
            let hook = self.hook_states[self.next_hook_index].duplicate();
            self.next_hook_index = self.next_hook_index + 1;
            Some(hook)
        } else {
            None
        }
    }

    /// Adds an action to run when the scope is torn down.
    pub fn add_cleanup(&mut self, cleanup: C)
        ensures
            final(self).wf(),
            final(self).cleanup_seq() == old(self).cleanup_seq().push(cleanup),
            final(self).hooks() == old(self).hooks(),
            final(self).cursor() == old(self).cursor(),
            final(self).component_dep_set() == old(self).component_dep_set(),
            final(self).resource_dep_set() == old(self).resource_dep_set(),
            final(self).is_marked() == old(self).is_marked(),
            final(self).last_tick() == old(self).last_tick(),
    {
        proof {
            use_type_invariant(&*self);
        }
        let mut cleanups = Vec::new();
        std::mem::swap(&mut cleanups, &mut self.cleanups);
        cleanups.push(cleanup);
        std::mem::swap(&mut cleanups, &mut self.cleanups);
    }

    /// Subscribes to the resource with component id `resource`.
    pub fn track_resource(&mut self, resource: usize)
        ensures
            final(self).wf(),
            final(self).resource_dep_set() == old(self).resource_dep_set().insert(resource),
            final(self).component_dep_set() == old(self).component_dep_set(),
            final(self).hooks() == old(self).hooks(),
            final(self).cursor() == old(self).cursor(),
            final(self).is_marked() == old(self).is_marked(),
            final(self).last_tick() == old(self).last_tick(),
            final(self).cleanup_seq() == old(self).cleanup_seq(),
    {
        proof {
            use_type_invariant(&*self);
        }
        let mut resources = new_resource_set();
        std::mem::swap(&mut resources, &mut self.resource_deps);
        insert_resource(&mut resources, resource);
        std::mem::swap(&mut resources, &mut self.resource_deps);
    }

    /// Subscribes to component `component` of `entity`; `exists` says whether the
    /// component was present when it was read.
    pub fn track_component_id(&mut self, entity: u64, component: usize, exists: bool)
        ensures
            final(self).wf(),
            final(self).component_dep_set() == old(self).component_dep_set().insert(
                (entity, component, exists),
            ),
            final(self).resource_dep_set() == old(self).resource_dep_set(),
            final(self).hooks() == old(self).hooks(),
            final(self).cursor() == old(self).cursor(),
            final(self).is_marked() == old(self).is_marked(),
            final(self).last_tick() == old(self).last_tick(),
            final(self).cleanup_seq() == old(self).cleanup_seq(),
    {
        proof {
            use_type_invariant(&*self);
        }
        let mut components = new_component_set();
        std::mem::swap(&mut components, &mut self.component_deps);
        insert_component(&mut components, (entity, component, exists));
        std::mem::swap(&mut components, &mut self.component_deps);
    }

    /// Marks the scope as changed, whatever its dependencies say.
    pub fn set_changed(&mut self)
        ensures
            final(self).wf(),
            final(self).is_marked(),
            final(self).hooks() == old(self).hooks(),
            final(self).cursor() == old(self).cursor(),
            final(self).component_dep_set() == old(self).component_dep_set(),
            final(self).resource_dep_set() == old(self).resource_dep_set(),
            final(self).last_tick() == old(self).last_tick(),
            final(self).cleanup_seq() == old(self).cleanup_seq(),
    {
        proof {
            use_type_invariant(&*self);
        }
        self.changed = true;
    }

    /// The component dependencies, each once, in no particular order.
    pub fn component_deps(&self) -> (r: Vec<ComponentDep>)
        ensures
            r@.to_set() == self.component_dep_set(),
            r@.no_duplicates(),
    {
        component_elements(&self.component_deps)
    }

    /// The resource dependencies, each once, in no particular order.
    pub fn resource_deps(&self) -> (r: Vec<usize>)
        ensures
            r@.to_set() == self.resource_dep_set(),
            r@.no_duplicates(),
    {
        resource_elements(&self.resource_deps)
    }

    /// Whether `deps` lists the component dependencies, each once, and `probes` holds
    /// one answer of the world per entry of `deps`.
    pub open spec fn fits_components(
        &self,
        deps: Seq<ComponentDep>,
        probes: Seq<Option<(Option<u32>, bool)>>,
    ) -> bool {
        &&& deps.to_set() == self.component_dep_set()
        &&& deps.no_duplicates()
        &&& probes.len() == deps.len()
    }

    /// Whether `deps` lists the resource dependencies, each once, and `probes` holds
    /// one answer of the world per entry of `deps`.
    pub open spec fn fits_resources(&self, deps: Seq<usize>, probes: Seq<Option<u32>>) -> bool {
        &&& deps.to_set() == self.resource_dep_set()
        &&& deps.no_duplicates()
        &&& probes.len() == deps.len()
    }

    /// Whether the scope must run again, as seen at engine tick `tick`, when the world
    /// answered `component_probes` of `component_deps` and `resource_probes` of the
    /// resource dependencies: each dependency is compared against the scope's last tick.
    pub open spec fn changed_by(
        &self,
        component_deps: Seq<ComponentDep>,
        component_probes: Seq<Option<(Option<u32>, bool)>>,
        resource_probes: Seq<Option<u32>>,
        tick: u32,
    ) -> bool {
        any_component_changed(component_deps, component_probes, self.last_tick(), tick)
            || any_resource_changed(resource_probes, self.last_tick(), tick) || self.is_marked()
    }

    /// Asks the world about each component dependency.
    fn probe_components(&self, world: &World) -> (r: (Vec<ComponentDep>, Vec<Option<(Option<u32>, bool)>>))
        ensures
            self.fits_components(r.0@, r.1@),
    {
        let deps = component_elements(&self.component_deps);
        let mut probes: Vec<Option<(Option<u32>, bool)>> = Vec::new();
        let mut i: usize = 0;
        while i < deps.len()
            invariant
                i <= deps@.len(),
                probes@.len() == i,
            decreases deps@.len() - i,
        {
            probes.push(probe_component(world, deps[i].0, deps[i].1));
            i = i + 1;
        }
        (deps, probes)
    }

    /// Asks the world about each resource dependency.
    fn probe_resources(&self, world: &World) -> (r: (Vec<usize>, Vec<Option<u32>>))
        ensures
            self.fits_resources(r.0@, r.1@),
    {
        let deps = resource_elements(&self.resource_deps);
        let mut probes: Vec<Option<u32>> = Vec::new();
        let mut i: usize = 0;
        while i < deps.len()
            invariant
                i <= deps@.len(),
                probes@.len() == i,
            decreases deps@.len() - i,
        {
            probes.push(probe_resource(world, deps[i]));
            i = i + 1;
        }
        (deps, probes)
    }

    /// Decides whether the scope must run again, as seen at engine tick `tick`, from
    /// what the world answered of each dependency, against the scope's last tick.
    pub fn changed_given(
        &self,
        component_deps: &Vec<ComponentDep>,
        component_probes: &Vec<Option<(Option<u32>, bool)>>,
        resource_probes: &Vec<Option<u32>>,
        tick: u32,
    ) -> (r: bool)
        requires
            component_deps@.len() == component_probes@.len(),
        ensures
            r == self.changed_by(component_deps@, component_probes@, resource_probes@, tick),
    {
        components_changed_given(component_deps, component_probes, self.tick, tick)
            || resources_changed_given(resource_probes, self.tick, tick) || self.changed
    }

    /// Whether a component dependency changed since the previous run, as seen at
    /// engine tick `tick`. What the world reports is read through bevy; the decision
    /// is `components_changed_given`'s, against the scope's last tick.
    pub fn components_changed(&self, world: &World, tick: u32) -> (r: bool)
        ensures
            exists|deps: Seq<ComponentDep>, probes: Seq<Option<(Option<u32>, bool)>>|
                #[trigger] self.fits_components(deps, probes) && r == any_component_changed(
                    deps,
                    probes,
                    self.last_tick(),
                    tick,
                ),
            self.component_dep_set() == Set::<ComponentDep>::empty() ==> !r,
            r ==> self.component_dep_set() != Set::<ComponentDep>::empty(),
    {
        let (deps, probes) = self.probe_components(world);
        let r = components_changed_given(&deps, &probes, self.tick, tick);
        proof {
            assert(self.fits_components(deps@, probes@));
            if deps@.len() > 0 {
                assert(deps@.to_set().contains(deps@[0]));
            }
        }
        r
    }

    /// Whether a resource dependency changed since the previous run, as seen at
    /// engine tick `tick`. What the world reports is read through bevy; the decision
    /// is `resources_changed_given`'s, against the scope's last tick.
    pub fn resources_changed(&self, world: &World, tick: u32) -> (r: bool)
        ensures
            exists|deps: Seq<usize>, probes: Seq<Option<u32>>|
                #[trigger] self.fits_resources(deps, probes) && r == any_resource_changed(
                    probes,
                    self.last_tick(),
                    tick,
                ),
            self.resource_dep_set() == Set::<usize>::empty() ==> !r,
            r ==> self.resource_dep_set() != Set::<usize>::empty(),
    {
        let (deps, probes) = self.probe_resources(world);
        let r = resources_changed_given(&probes, self.tick, tick);
        proof {
            assert(self.fits_resources(deps@, probes@));
            if deps@.len() > 0 {
                assert(deps@.to_set().contains(deps@[0]));
            }
        }
        r
    }

    /// Whether the scope must run again: a dependency changed since the previous run,
    /// as seen at engine tick `tick`, or the scope was marked. What the world reports
    /// is read through bevy; the decision is `changed_given`'s. Reading it changes
    /// nothing.
    pub fn dependencies_changed(&self, world: &World, tick: u32) -> (r: bool)
        ensures
            exists|
                cdeps: Seq<ComponentDep>,
                cprobes: Seq<Option<(Option<u32>, bool)>>,
                rdeps: Seq<usize>,
                rprobes: Seq<Option<u32>>,
            |
                #![trigger self.fits_components(cdeps, cprobes), self.fits_resources(rdeps, rprobes)]
                self.fits_components(cdeps, cprobes) && self.fits_resources(rdeps, rprobes) && r
                    == self.changed_by(cdeps, cprobes, rprobes, tick),
            self.is_marked() ==> r,
            !self.is_marked() && self.component_dep_set() == Set::<ComponentDep>::empty()
                && self.resource_dep_set() == Set::<usize>::empty() ==> !r,
            r ==> self.is_marked() || self.component_dep_set() != Set::<ComponentDep>::empty()
                || self.resource_dep_set() != Set::<usize>::empty(),
    {
        let (cdeps, cprobes) = self.probe_components(world);
        let (rdeps, rprobes) = self.probe_resources(world);
        let r = self.changed_given(&cdeps, &cprobes, &rprobes, tick);
        proof {
            assert(self.fits_components(cdeps@, cprobes@));
            assert(self.fits_resources(rdeps@, rprobes@));
            if cdeps@.len() > 0 {
                assert(cdeps@.to_set().contains(cdeps@[0]));
            }
            if rdeps@.len() > 0 {
                assert(rdeps@.to_set().contains(rdeps@[0]));
            }
            if any_component_changed(cdeps@, cprobes@, self.tick, tick) {
                assert(cdeps@.len() > 0);
            }
            if any_resource_changed(rprobes@, self.tick, tick) {
                assert(rdeps@.len() > 0);
            }
        }
        r
    }

    /// Takes over the dependencies, cleanups, hooks and mark of `other`, which is left
    /// with none of them. Nothing of what this scope held before is kept.
    pub fn take_deps(&mut self, other: &mut Self)
        ensures
            final(self).wf(),
            final(self).component_dep_set() == old(other).component_dep_set(),
            final(self).resource_dep_set() == old(other).resource_dep_set(),
            final(self).cleanup_seq() == old(other).cleanup_seq(),
            final(self).hooks() == old(other).hooks(),
            final(self).is_marked() == old(other).is_marked(),
            final(self).cursor() == 0,
            final(self).last_tick() == old(self).last_tick(),
            final(other).wf(),
            final(other).component_dep_set() == Set::<ComponentDep>::empty(),
            final(other).resource_dep_set() == Set::<usize>::empty(),
            final(other).cleanup_seq() == Seq::<C>::empty(),
            final(other).hooks() == Seq::<HookState<P>>::empty(),
            final(other).is_marked() == old(other).is_marked(),
            final(other).cursor() == 0,
            final(other).last_tick() == old(other).last_tick(),
    {
        proof {
            use_type_invariant(&*self);
            use_type_invariant(&*other);
        }
        let mut components = new_component_set();
        std::mem::swap(&mut components, &mut other.component_deps);
        self.component_deps = components;
        let mut resources = new_resource_set();
        std::mem::swap(&mut resources, &mut other.resource_deps);
        self.resource_deps = resources;
        let mut cleanups = Vec::new();
        std::mem::swap(&mut cleanups, &mut other.cleanups);
        self.cleanups = cleanups;
        self.next_hook_index = 0;
        other.next_hook_index = 0;
        let mut hooks = Vec::new();
        std::mem::swap(&mut hooks, &mut other.hook_states);
        self.hook_states = hooks;
        self.changed = other.changed;
    }

    /// Takes over the hooks of `other`, which is left with none.
    pub fn take_hooks(&mut self, other: &mut Self)
        ensures
            final(self).wf(),
            final(self).hooks() == old(other).hooks(),
            final(self).cursor() == 0,
            final(self).component_dep_set() == old(self).component_dep_set(),
            final(self).resource_dep_set() == old(self).resource_dep_set(),
            final(self).is_marked() == old(self).is_marked(),
            final(self).last_tick() == old(self).last_tick(),
            final(self).cleanup_seq() == old(self).cleanup_seq(),
            final(other).hooks() == Seq::<HookState<P>>::empty(),
            final(other).wf(),
            final(other).cursor() == 0,
            final(other).component_dep_set() == old(other).component_dep_set(),
            final(other).resource_dep_set() == old(other).resource_dep_set(),
            final(other).is_marked() == old(other).is_marked(),
            final(other).last_tick() == old(other).last_tick(),
            final(other).cleanup_seq() == old(other).cleanup_seq(),
    {
        proof {
            use_type_invariant(&*self);
            use_type_invariant(&*other);
        }
        self.next_hook_index = 0;
        other.next_hook_index = 0;
        let mut hooks = Vec::new();
        std::mem::swap(&mut hooks, &mut other.hook_states);
        self.hook_states = hooks;
    }

    /// Empties the scope for teardown: returns its cleanups, in the order they were
    /// added, to be run first, then the commands that release what its hooks own,
    /// with the hooks walked from the last to the first.
    pub fn teardown(&mut self) -> (r: (Vec<C>, Vec<TeardownCmd>))
        ensures
            final(self).wf(),
            r.0@ == old(self).cleanup_seq(),
            r.1@ == teardown_cmds(old(self).hooks()),
            final(self).cleanup_seq() == Seq::<C>::empty(),
            final(self).hooks() == Seq::<HookState<P>>::empty(),
            final(self).cursor() == 0,
            final(self).component_dep_set() == old(self).component_dep_set(),
            final(self).resource_dep_set() == old(self).resource_dep_set(),
            final(self).is_marked() == old(self).is_marked(),
            final(self).last_tick() == old(self).last_tick(),
    {
        proof {
            use_type_invariant(&*self);
        }
        let mut cleanups = Vec::new();
        std::mem::swap(&mut cleanups, &mut self.cleanups);
        self.next_hook_index = 0;
        let mut hooks = Vec::new();
        std::mem::swap(&mut hooks, &mut self.hook_states);
        let mut cmds: Vec<TeardownCmd> = Vec::new();
        let mut i: usize = hooks.len();
        assert(hooks@.subrange(0, i as int) =~= hooks@);
        assert(cmds@ + teardown_cmds(hooks@) =~= teardown_cmds(hooks@));
        while i > 0
            invariant
                i <= hooks@.len(),
                cmds@ + teardown_cmds(hooks@.subrange(0, i as int)) == teardown_cmds(hooks@),
            decreases i,
        {
            let ghost prefix = hooks@.subrange(0, i as int);
            assert(prefix.drop_last() =~= hooks@.subrange(0, i - 1));
            assert(prefix.last() == hooks@[i - 1]);
            let c = hooks[i - 1].teardown_cmd();
            let ghost before = cmds@;
            match c {
                Some(cmd) => {
                    cmds.push(cmd);
                },
                None => {},
            }
            assert(cmds@ =~= before + hooks@[i - 1].teardown_spec());
            assert(cmds@ + teardown_cmds(hooks@.subrange(0, i - 1)) =~= before + teardown_cmds(
                prefix,
            ));
            i = i - 1;
        }
        assert(cmds@ + teardown_cmds(hooks@.subrange(0, 0)) =~= cmds@);
        (cleanups, cmds)
    }

    /// The variant of the hook at the cursor, or `None` past the last record.
    pub fn peek_kind(&self) -> (r: Option<HookKind>)
        ensures
            self.cursor() < self.hooks().len() ==> r == Some(
                self.hooks()[self.cursor() as int].kind(),
            ),
            self.cursor() >= self.hooks().len() ==> r.is_none(),
    {
        if self.next_hook_index < self.hook_states.len() {
            Some(self.hook_states[self.next_hook_index].hook_kind())
        } else {
            None
        }
    }

    /// The variant of the hook just before the cursor (the one a replacement would
    /// overwrite), or `None` when there is none.
    pub fn last_kind(&self) -> (r: Option<HookKind>)
        ensures
            0 < self.cursor() <= self.hooks().len() ==> r == Some(
                self.hooks()[self.cursor() - 1].kind(),
            ),
            !(0 < self.cursor() <= self.hooks().len()) ==> r.is_none(),
    {
        if 0 < self.next_hook_index && self.next_hook_index <= self.hook_states.len() {
            Some(self.hook_states[self.next_hook_index - 1].hook_kind())
        } else {
            None
        }
    }

    /// Whether a hook may be appended now: the cursor stands right after the last record.
    pub fn can_append(&self) -> (r: bool)
        ensures
            r == (self.cursor() == self.hooks().len() && self.cursor() < usize::MAX),
    {
        self.next_hook_index == self.hook_states.len() && self.next_hook_index < usize::MAX
    }
}

} // verus!
