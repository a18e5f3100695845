use bevy::ecs::component::{Component, Mutable, StorageType};
use bevy::ecs::resource::Resource;
use bevy::ecs::world::World;

use quill_core::hooks::{HookKind, HookState, TeardownCmd};
use quill_core::tracking_scope::{
    component_changed, components_changed_given, resource_changed, resources_changed_given,
    TrackingScope,
};

type Scope = TrackingScope<u64, u8>;

struct TestResource(bool);

impl Resource for TestResource {}

struct Marker;

impl Component for Marker {
    const STORAGE_TYPE: StorageType = StorageType::Table;
    type Mutability = Mutable;
}

fn resource_id(world: &World) -> usize {
    world.components().resource_id::<TestResource>().unwrap().index()
}

#[test]
fn test_resource_deps_changed() {
    let mut world = World::default();
    let tick = world.change_tick().get();
    let mut scope = Scope::new(tick);

    // No dependencies, so the result should be false
    assert!(!scope.dependencies_changed(&world, tick));

    world.increment_change_tick();
    world.insert_resource(TestResource(false));
    scope.track_resource(resource_id(&world));
    assert!(scope.resource_deps().len() == 1);

    // Resource added
    let tick = world.change_tick().get();
    assert!(scope.dependencies_changed(&world, tick));

    // Reset scope tick
    scope.set_tick(tick);
    assert!(!scope.dependencies_changed(&world, tick));

    // Mutate the resource
    world.increment_change_tick();
    world.get_resource_mut::<TestResource>().unwrap().0 = true;
    let tick = world.change_tick().get();
    assert!(scope.dependencies_changed(&world, tick));
}

#[test]
fn no_dependencies_never_dirty() {
    let world = World::default();
    let scope = Scope::new(7);
    for tick in [0u32, 1, 7, 8, 1000, u32::MAX] {
        assert!(!scope.dependencies_changed(&world, tick));
    }
}

#[test]
fn marked_scope_is_dirty() {
    let world = World::default();
    let mut scope = Scope::new(3);
    scope.set_changed();
    assert!(scope.dependencies_changed(&world, 3));
}

#[test]
fn mutation_stays_dirty_until_tick_catches_up() {
    let mut world = World::default();
    world.insert_resource(TestResource(false));
    let mut scope = Scope::new(world.change_tick().get());
    scope.track_resource(resource_id(&world));
    world.increment_change_tick();
    world.get_resource_mut::<TestResource>().unwrap().0 = true;
    let changed_at = world.change_tick().get();
    world.increment_change_tick();
    world.increment_change_tick();
    let now = world.change_tick().get();
    assert!(scope.dependencies_changed(&world, now));
    scope.set_tick(changed_at);
    assert!(!scope.dependencies_changed(&world, now));
}

#[test]
fn untracked_resource_never_dirty() {
    let mut world = World::default();
    let scope = Scope::new(world.change_tick().get());
    // The resource is absent, so the body never reads it and registers nothing.
    assert!(world.get_resource::<TestResource>().is_none());
    let now = world.change_tick().get();
    assert!(!scope.dependencies_changed(&world, now));
    world.increment_change_tick();
    world.insert_resource(TestResource(true));
    let now = world.change_tick().get();
    assert!(!scope.dependencies_changed(&world, now));
}

#[test]
fn component_removal_and_despawn() {
    let mut world = World::default();
    let entity = world.spawn(Marker).id();
    let cid = world.register_component::<Marker>().index();
    world.increment_change_tick();
    let mut scope = Scope::new(world.change_tick().get());
    scope.track_component_id(entity.to_bits(), cid, true);
    let now = world.change_tick().get();
    assert!(!scope.dependencies_changed(&world, now));
    world.entity_mut(entity).remove::<Marker>();
    let now = world.change_tick().get();
    assert!(scope.dependencies_changed(&world, now));
    world.despawn(entity);
    let now = world.change_tick().get();
    assert!(scope.dependencies_changed(&world, now));
}

#[test]
fn component_change_rules() {
    let dep = (1u64, 2usize, true);
    assert!(component_changed(dep, None, 5, 10));
    assert!(!component_changed((1, 2, false), None, 5, 10));
    assert!(component_changed(dep, Some((Some(7), true)), 5, 10));
    assert!(!component_changed(dep, Some((Some(5), true)), 5, 10));
    assert!(component_changed(dep, Some((None, false)), 5, 10));
    assert!(!component_changed((1, 2, false), Some((None, false)), 5, 10));
}

#[test]
fn resource_change_across_wraparound() {
    assert!(resource_changed(Some(5), u32::MAX - 2, 10));
    assert!(!resource_changed(Some(u32::MAX), 3, 10));
    assert!(resource_changed(Some(9), 8, 10));
    assert!(!resource_changed(Some(8), 8, 10));
    assert!(!resource_changed(None, 0, 10));
}

#[test]
fn take_deps_replaces_everything() {
    let mut a = Scope::new(0);
    let mut b = Scope::new(0);
    a.track_component_id(1, 10, true);
    a.track_resource(4);
    b.track_component_id(2, 20, false);
    b.add_cleanup(9);
    b.push_hook(HookState::Entity(77));
    b.set_changed();
    a.take_deps(&mut b);
    assert_eq!(a.component_deps(), vec![(2, 20, false)]);
    assert!(a.resource_deps().is_empty());
    assert!(b.component_deps().is_empty());
    assert!(b.resource_deps().is_empty());
    let (cleanups, cmds) = a.teardown();
    assert_eq!(cleanups, vec![9]);
    assert_eq!(cmds, vec![TeardownCmd::Despawn(77)]);
    let (cleanups, cmds) = b.teardown();
    assert!(cleanups.is_empty());
    assert!(cmds.is_empty());
}

#[test]
fn tracking_is_idempotent() {
    let mut scope = Scope::new(0);
    scope.track_resource(3);
    scope.track_resource(3);
    scope.track_component_id(1, 2, true);
    scope.track_component_id(1, 2, true);
    assert_eq!(scope.resource_deps(), vec![3]);
    assert_eq!(scope.component_deps(), vec![(1, 2, true)]);
}

#[test]
fn teardown_in_reverse_exactly_once() {
    let mut scope = Scope::new(0);
    scope.push_hook(HookState::Entity(1));
    scope.push_hook(HookState::Mutable(2, 5));
    scope.push_hook(HookState::Effect(0));
    scope.push_hook(HookState::Callback(4));
    scope.push_hook(HookState::Observer(3, 1, 0));
    scope.add_cleanup(1);
    scope.add_cleanup(2);
    let (cleanups, cmds) = scope.teardown();
    assert_eq!(cleanups, vec![1, 2]);
    assert_eq!(
        cmds,
        vec![
            TeardownCmd::Despawn(3),
            TeardownCmd::Unregister(4),
            TeardownCmd::Despawn(2),
            TeardownCmd::Despawn(1),
        ]
    );
    let (cleanups, cmds) = scope.teardown();
    assert!(cleanups.is_empty());
    assert!(cmds.is_empty());
}

#[test]
fn next_and_replace_hooks() {
    let mut scope = Scope::new(0);
    assert!(scope.next_hook().is_none());
    scope.push_hook(HookState::Memo(1));
    let mut replay = Scope::new(0);
    replay.take_hooks(&mut scope);
    assert!(scope.next_hook().is_none());
    match replay.next_hook() {
        Some(HookState::Memo(p)) => assert_eq!(p, 1),
        _ => panic!("expected a memo record"),
    }
    assert!(replay.next_hook().is_none());
    replay.replace_hook(HookState::Memo(2));
    let mut again = Scope::new(0);
    again.take_hooks(&mut replay);
    match again.next_hook() {
        Some(h) => {
            assert_eq!(h.hook_kind(), HookKind::Memo);
            assert!(matches!(h, HookState::Memo(2)));
        }
        None => panic!("expected a memo record"),
    }
}

#[test]
fn any_dependency_decides() {
    let deps = vec![(1u64, 1usize, true), (2, 2, false), (3, 3, true)];
    let quiet = vec![Some((Some(4), true)), None, Some((Some(5), true))];
    assert!(!components_changed_given(&deps, &quiet, 5, 10));
    let removed = vec![Some((Some(4), true)), Some((None, false)), Some((None, false))];
    assert!(components_changed_given(&deps, &removed, 5, 10));
    let despawned = vec![Some((Some(4), true)), Some((None, false)), None];
    assert!(components_changed_given(&deps, &despawned, 5, 10));
    assert!(!components_changed_given(&Vec::new(), &Vec::new(), 5, 10));
    assert!(!resources_changed_given(&vec![None, Some(3), Some(5)], 5, 10));
    assert!(resources_changed_given(&vec![None, Some(6)], 5, 10));
    assert!(!resources_changed_given(&Vec::new(), 5, 10));
}

#[test]
fn cursor_resets_when_hooks_are_taken() {
    let mut a = Scope::new(0);
    a.push_hook(HookState::Entity(1));
    let mut b = Scope::new(0);
    a.take_deps(&mut b);
    assert!(a.next_hook().is_none());
    assert!(a.can_append());
    assert_eq!(a.last_kind(), None);
    a.push_hook(HookState::Entity(2));
    assert_eq!(a.last_kind(), Some(HookKind::Entity));
    let (_, cmds) = a.teardown();
    assert_eq!(cmds, vec![TeardownCmd::Despawn(2)]);
    assert!(a.can_append());
}
