use quill_core::hook_steps::{memo_must_compute, observer_is_kept, EffectOptions};
use quill_core::hooks::{HookKind, HookState};
use quill_core::tracking_scope::TrackingScope;

type Scope = TrackingScope<u64, u8>;

/// Starts a new run over the hooks that `prev` recorded.
fn next_run(prev: &mut Scope) -> Scope {
    let mut scope = Scope::new(0);
    scope.take_hooks(prev);
    scope
}

/// One call of an effect hook whose dependency value is `deps`; returns whether it ran.
fn call_effect(scope: &mut Scope, deps: u64, options: EffectOptions) -> bool {
    let prior = scope.reuse_payload(HookKind::Effect);
    let found = prior.is_some();
    let equal = prior == Some(deps);
    scope.settle_effect(found, equal, options, deps)
}

/// One call of a memo hook that squares `deps`; counts factory calls in `computed`.
fn call_memo(scope: &mut Scope, deps: u64, computed: &mut u32) -> u64 {
    let prior = scope.reuse_payload(HookKind::Memo);
    let found = prior.is_some();
    let equal = prior == Some(deps);
    if memo_must_compute(found, equal) {
        *computed += 1;
        scope.record_hook(found, HookState::Memo(deps));
        deps * deps
    } else {
        prior.unwrap() * prior.unwrap()
    }
}

#[test]
fn effect_options_default_runs_immediately() {
    assert!(EffectOptions::default().run_immediately);
}

#[test]
fn replay_keeps_identities() {
    let mut first = Scope::new(0);
    assert_eq!(first.reuse_entity(), None);
    first.push_hook(HookState::Entity(11));
    assert_eq!(first.reuse_mutable(), None);
    first.push_hook(HookState::Mutable(12, 3));
    assert_eq!(first.reuse_callback(), None);
    first.push_hook(HookState::Callback(13));
    assert!(first.reuse_observer().is_none());
    first.push_hook(HookState::Observer(14, 11, 5));

    let mut second = next_run(&mut first);
    assert_eq!(second.reuse_entity(), Some(11));
    assert_eq!(second.reuse_mutable(), Some((12, 3)));
    assert_eq!(second.reuse_callback(), Some(13));
    let (observer, target, deps) = second.reuse_observer().unwrap();
    assert_eq!((observer, target, deps), (14, 11, 5));
    assert!(observer_is_kept(target, 11, deps == 5));

    let mut third = next_run(&mut second);
    assert_eq!(third.reuse_entity(), Some(11));
    assert_eq!(third.reuse_mutable(), Some((12, 3)));
    assert_eq!(third.reuse_callback(), Some(13));
    assert_eq!(third.reuse_observer().map(|o| (o.0, o.1)), Some((14, 11)));
}

#[test]
fn observer_replaced_on_new_target_or_deps() {
    assert!(observer_is_kept(4, 4, true));
    assert!(!observer_is_kept(4, 5, true));
    assert!(!observer_is_kept(4, 4, false));
    let mut scope = Scope::new(0);
    scope.push_hook(HookState::Observer(20, 4, 1));
    let mut replay = next_run(&mut scope);
    let (_, prev_target, _) = replay.reuse_observer().unwrap();
    assert!(!observer_is_kept(prev_target, 5, true));
    replay.record_hook(true, HookState::Observer(21, 5, 1));
    let mut after = next_run(&mut replay);
    assert_eq!(after.reuse_observer(), Some((21, 5, 1)));
}

#[test]
fn effect_runs_on_first_call_and_on_change() {
    let options = EffectOptions::default();
    let deps = [1u64, 1, 2, 2, 2, 3, 1];
    let mut scope = Scope::new(0);
    let mut runs = Vec::new();
    for d in deps {
        runs.push(call_effect(&mut scope, d, options));
        scope = next_run(&mut scope);
    }
    assert_eq!(runs, vec![true, false, true, false, false, true, true]);
}

#[test]
fn effect_without_immediate_run() {
    let options = EffectOptions { run_immediately: false };
    let mut scope = Scope::new(0);
    assert!(!call_effect(&mut scope, 1, options));
    let mut scope = next_run(&mut scope);
    assert!(!call_effect(&mut scope, 1, options));
    let mut scope = next_run(&mut scope);
    assert!(call_effect(&mut scope, 2, options));
}

#[test]
fn memo_computes_once_for_same_deps() {
    let mut computed = 0u32;
    let mut scope = Scope::new(0);
    let a = call_memo(&mut scope, 6, &mut computed);
    let mut scope = next_run(&mut scope);
    let b = call_memo(&mut scope, 6, &mut computed);
    assert_eq!(a, 36);
    assert_eq!(b, a);
    assert_eq!(computed, 1);
    let mut scope = next_run(&mut scope);
    assert_eq!(call_memo(&mut scope, 7, &mut computed), 49);
    assert_eq!(computed, 2);
}

#[test]
fn memo_rules() {
    assert!(memo_must_compute(false, false));
    assert!(memo_must_compute(false, true));
    assert!(memo_must_compute(true, false));
    assert!(!memo_must_compute(true, true));
}

#[test]
fn peek_and_append_follow_the_cursor() {
    let mut scope = Scope::new(0);
    assert_eq!(scope.peek_kind(), None);
    assert!(scope.can_append());
    scope.record_hook(false, HookState::Callback(3));
    scope.record_hook(false, HookState::Effect(8));
    let mut replay = next_run(&mut scope);
    assert_eq!(replay.peek_kind(), Some(HookKind::Callback));
    assert!(!replay.can_append());
    assert_eq!(replay.reuse_callback(), Some(3));
    assert_eq!(replay.peek_kind(), Some(HookKind::Effect));
    assert_eq!(replay.reuse_payload(HookKind::Effect), Some(8));
    assert_eq!(replay.peek_kind(), None);
    assert!(replay.can_append());
}
