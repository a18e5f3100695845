//! The library's contact points with bevy: declarations of the bevy types that the
//! tracking scope holds or reads, and the calls it makes into bevy.
use vstd::prelude::*;

use bevy::ecs::component::{ComponentId, Tick};
use bevy::ecs::entity::Entity;
use bevy::ecs::world::World;
use bevy::platform::collections::HashSet;
use bevy::platform::hash::FixedHasher;

verus! {

/// A component dependency: entity id (as bits), component id, and whether the
/// component was present when it was read.
pub type ComponentDep = (u64, usize, bool);

#[verifier::external_type_specification]
#[verifier::external_body]
#[verifier::reject_recursive_types(T)]
#[verifier::reject_recursive_types(S)]
pub struct ExHashSet<T, S>(HashSet<T, S>);

#[verifier::external_type_specification]
#[verifier::external_body]
pub struct ExFixedHasher(FixedHasher);

#[verifier::external_type_specification]
#[verifier::external_body]
pub struct ExWorld(World);

/// The largest age that bevy's change detection distinguishes
/// (`bevy::ecs::change_detection::MAX_CHANGE_AGE`).
pub const MAX_CHANGE_AGE: u32 = 3258167296;

/// How many ticks lie between `t` and `this_run`, counted modulo 2^32 and
/// clamped to `MAX_CHANGE_AGE`.
pub open spec fn tick_age(this_run: u32, t: u32) -> int {
    let d = (this_run as int - t as int) % 0x1_0000_0000int;
    if d < MAX_CHANGE_AGE as int { d } else { MAX_CHANGE_AGE as int }
}

/// Whether a value changed at tick `changed` counts as newer than `last_run`, as seen
/// from `this_run`: this is safe across wraparound of the tick counter.
pub open spec fn tick_newer(changed: u32, last_run: u32, this_run: u32) -> bool {
    tick_age(this_run, last_run) > tick_age(this_run, changed)
}

/// Relies on `Tick::is_newer_than`: it compares the two wrapping differences to
/// `this_run`, each clamped to `MAX_CHANGE_AGE`.
#[verifier::external_body]
pub(crate) fn tick_is_newer(changed: u32, last_run: u32, this_run: u32) -> (r: bool)
    ensures
        r == tick_newer(changed, last_run, this_run),
{
    Tick::new(changed).is_newer_than(Tick::new(last_run), Tick::new(this_run))
}

/// The elements of a set of component dependencies.
pub uninterp spec fn component_set(s: HashSet<ComponentDep>) -> Set<ComponentDep>;

/// The elements of a set of resource ids.
pub uninterp spec fn resource_set(s: HashSet<usize>) -> Set<usize>;

/// Relies on `HashSet::new` (bevy_platform): a new set is empty.
#[verifier::external_body]
pub(crate) fn new_component_set() -> (r: HashSet<ComponentDep>)
    ensures
        component_set(r) == Set::<ComponentDep>::empty(),
{
    HashSet::new()
}

/// Relies on `HashSet::insert` (bevy_platform, through hashbrown): the set gains `v`.
#[verifier::external_body]
pub(crate) fn insert_component(s: &mut HashSet<ComponentDep>, v: ComponentDep)
    ensures
        component_set(*final(s)) == component_set(*old(s)).insert(v),
{
    s.insert(v);
}

/// Relies on `HashSet::iter` (hashbrown): each element is visited once.
#[verifier::external_body]
pub(crate) fn component_elements(s: &HashSet<ComponentDep>) -> (r: Vec<ComponentDep>)
    ensures
        r@.to_set() == component_set(*s),
        r@.no_duplicates(),
{
    s.iter().copied().collect()
}

/// Relies on `HashSet::new` (bevy_platform): a new set is empty.
#[verifier::external_body]
pub(crate) fn new_resource_set() -> (r: HashSet<usize>)
    ensures
        resource_set(r) == Set::<usize>::empty(),
{
    HashSet::new()
}

/// Relies on `HashSet::insert` (bevy_platform, through hashbrown): the set gains `v`.
#[verifier::external_body]
pub(crate) fn insert_resource(s: &mut HashSet<usize>, v: usize)
    ensures
        resource_set(*final(s)) == resource_set(*old(s)).insert(v),
{
    s.insert(v);
}

/// Relies on `HashSet::iter` (hashbrown): each element is visited once.
#[verifier::external_body]
pub(crate) fn resource_elements(s: &HashSet<usize>) -> (r: Vec<usize>)
    ensures
        r@.to_set() == resource_set(*s),
        r@.no_duplicates(),
{
    s.iter().copied().collect()
}

/// Relies on `World::get_entity`, `EntityRef::get_change_ticks_by_id` and
/// `EntityRef::get_by_id`: `None` when entity `e` does not exist; otherwise the
/// last-changed tick of component `c` on it (if it has one) and whether it holds `c`.
/// What comes back depends on the world's state.
#[verifier::external_body]
pub(crate) fn probe_component(world: &World, e: u64, c: usize) -> (r: Option<(Option<u32>, bool)>) {
    let entity = Entity::try_from_bits(e).ok()?;
    let found = world.get_entity(entity).ok()?;
    let id = ComponentId::new(c);
    Some((found.get_change_ticks_by_id(id).map(|t| t.changed.get()), found.get_by_id(id).is_ok()))
}

/// Relies on `World::get_resource_change_ticks_by_id`: the last-changed tick of
/// resource `c`, or `None` when the world holds no such resource.
/// What comes back depends on the world's state.
#[verifier::external_body]
pub(crate) fn probe_resource(world: &World, c: usize) -> (r: Option<u32>) {
    world.get_resource_change_ticks_by_id(ComponentId::new(c)).map(|t| t.changed.get())
}

} // verus!
