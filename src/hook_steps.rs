//! What each kind of hook does on one call of a scope body: find its record at the
//! cursor or create one, and decide whether to run, recompute or replace.
use vstd::prelude::*;

use crate::hooks::{hook_cloned, HookIdentity, HookKind, HookState};
use crate::tracking_scope::TrackingScope;

verus! {

/// Options for an effect hook.
#[derive(Clone, Copy, PartialEq, Eq, Structural, Debug)]
pub struct EffectOptions {
    /// Run the effect once when it is first called. Default true.
    pub run_immediately: bool,
}

impl Default for EffectOptions {
    fn default() -> (r: EffectOptions)
        ensures
            r.run_immediately,
    {
        EffectOptions { run_immediately: true }
    }
}

/// Whether an effect runs on this call: on its first call (`found` false) when it
/// runs immediately; afterwards when its dependency value differs from the recorded one.
pub open spec fn effect_runs(found: bool, deps_equal: bool, run_immediately: bool) -> bool {
    if found {
        !deps_equal
    } else {
        run_immediately
    }
}

/// Whether a memo computes its value on this call: on its first call, and afterwards
/// when its dependency value differs from the recorded one.
pub open spec fn memo_computes(found: bool, deps_equal: bool) -> bool {
    !found || !deps_equal
}

/// Whether an observer is kept: its target and its dependency value are unchanged.
pub open spec fn observer_kept(prev_target: u64, target: u64, deps_equal: bool) -> bool {
    prev_target == target && deps_equal
}

/// Decides whether a memo computes its value on this call.
pub fn memo_must_compute(found: bool, deps_equal: bool) -> (r: bool)
    ensures
        r == memo_computes(found, deps_equal),
{
    !found || !deps_equal
}

/// Decides whether an observer is kept, or replaced by one for the new target.
pub fn observer_is_kept(prev_target: u64, target: u64, deps_equal: bool) -> (r: bool)
    ensures
        r == observer_kept(prev_target, target, deps_equal),
{
    prev_target == target && deps_equal
}

/// How many times an effect runs over successive calls with dependency values `ds`:
/// each call compares its value with that of the call before.
pub open spec fn effect_run_count<D>(ds: Seq<D>, run_immediately: bool) -> nat
    decreases ds.len(),
{
    if ds.len() == 0 {
        0
    } else {
        let found = ds.len() > 1;
        let equal = found && ds.last() == ds[ds.len() - 2];
        effect_run_count(ds.drop_last(), run_immediately) + if effect_runs(
            found,
            equal,
            run_immediately,
        ) {
            1nat
        } else {
            0nat
        }
    }
}

/// How many successive values in `ds` differ from the value before them.
pub open spec fn change_count<D>(ds: Seq<D>) -> nat
    decreases ds.len(),
{
    if ds.len() <= 1 {
        0
    } else {
        change_count(ds.drop_last()) + if ds.last() != ds[ds.len() - 2] {
            1nat
        } else {
            0nat
        }
    }
}

/// An effect that runs immediately runs once on its first call and once more on each
/// later call whose dependency value differs from the one before, and on no other call.
pub proof fn lemma_effect_runs<D>(ds: Seq<D>)
    requires
        ds.len() >= 1,
    ensures
        effect_run_count(ds, true) == 1 + change_count(ds),
        !effect_runs(true, true, true),
    decreases ds.len(),
{
    if ds.len() > 1 {
        lemma_effect_runs(ds.drop_last());
    } else {
        assert(effect_run_count(ds.drop_last(), true) == 0);
    }
}

/// A memo called twice in a row with the same dependency value computes on the first
/// call only: the first call finds no record and computes; the second finds the memo
/// recorded then (`hooks[i]`, holding `recorded`), gets back a clone of it (`reused`,
/// as `reuse_payload` promises), and with equal dependencies does not compute.
pub proof fn lemma_memo_idempotent<P: Clone>(
    hooks: Seq<HookState<P>>,
    i: int,
    recorded: P,
    reused: P,
)
    requires
        0 <= i < hooks.len(),
        hooks[i] == HookState::Memo(recorded),
        hook_cloned(hooks[i], HookState::Memo(reused)),
    ensures
        memo_computes(false, true),
        !memo_computes(true, true),
        cloned(recorded, reused),
{
}

impl<P, C> TrackingScope<P, C> {
    /// Where a hook call that created no record before may append one.
    pub open spec fn can_push(&self) -> bool {
        self.cursor() == self.hooks().len() && self.cursor() < usize::MAX
    }

    /// Where a hook call that found its record may overwrite it.
    pub open spec fn can_replace(&self, k: HookKind) -> bool {
        0 < self.cursor() <= self.hooks().len() && self.hooks()[self.cursor() - 1].kind() == k
    }

    /// The record of an entity hook at the cursor: its entity, or `None` where the
    /// entity is still to be spawned and recorded with `push_hook`.
    pub fn reuse_entity(&mut self) -> (r: Option<u64>)
        where
            P: Clone,
        requires
            old(self).next_is(HookKind::Entity),
        ensures
            old(self).cursor() < old(self).hooks().len() ==> {
                &&& r.is_some()
                &&& old(self).hooks()[old(self).cursor() as int].identity() == HookIdentity::Entity(
                    r.unwrap(),
                )
                &&& final(self).cursor() == old(self).cursor() + 1
            },
            old(self).cursor() >= old(self).hooks().len() ==> r.is_none() && final(self).cursor()
                == old(self).cursor(),
            final(self).hooks() == old(self).hooks(),
            final(self).keeps_rest_of(old(self)),
            final(self).wf(),
    {
        match self.next_hook() {
            Some(HookState::Entity(e)) => Some(e),
            _ => None,
        }
    }

    /// The record of a mutable-cell hook at the cursor: the cell entity and the
    /// component kind of its value, or `None` where the cell is still to be created.
    pub fn reuse_mutable(&mut self) -> (r: Option<(u64, usize)>)
        where
            P: Clone,
        requires
            old(self).next_is(HookKind::Mutable),
        ensures
            old(self).cursor() < old(self).hooks().len() ==> {
                &&& r.is_some()
                &&& old(self).hooks()[old(self).cursor() as int].identity()
                    == HookIdentity::Mutable(r.unwrap().0, r.unwrap().1)
                &&& final(self).cursor() == old(self).cursor() + 1
            },
            old(self).cursor() >= old(self).hooks().len() ==> r.is_none() && final(self).cursor()
                == old(self).cursor(),
            final(self).hooks() == old(self).hooks(),
            final(self).keeps_rest_of(old(self)),
            final(self).wf(),
    {
        match self.next_hook() {
            Some(HookState::Mutable(e, c)) => Some((e, c)),
            _ => None,
        }
    }

    /// The record of a callback hook at the cursor: its handle, or `None` where the
    /// procedure is still to be registered.
    pub fn reuse_callback(&mut self) -> (r: Option<u64>)
        where
            P: Clone,
        requires
            old(self).next_is(HookKind::Callback),
        ensures
            old(self).cursor() < old(self).hooks().len() ==> {
                &&& r.is_some()
                &&& old(self).hooks()[old(self).cursor() as int].identity()
                    == HookIdentity::Callback(r.unwrap())
                &&& final(self).cursor() == old(self).cursor() + 1
            },
            old(self).cursor() >= old(self).hooks().len() ==> r.is_none() && final(self).cursor()
                == old(self).cursor(),
            final(self).hooks() == old(self).hooks(),
            final(self).keeps_rest_of(old(self)),
            final(self).wf(),
    {
        match self.next_hook() {
            Some(HookState::Callback(h)) => Some(h),
            _ => None,
        }
    }

    /// The recorded payload of an effect or memo hook of kind `k` at the cursor, or
    /// `None` where the hook is called for the first time.
    pub fn reuse_payload(&mut self, k: HookKind) -> (r: Option<P>)
        where
            P: Clone,
        requires
            k == HookKind::Effect || k == HookKind::Memo,
            old(self).next_is(k),
        ensures
            old(self).cursor() < old(self).hooks().len() ==> {
                &&& r.is_some()
                &&& k == HookKind::Effect ==> hook_cloned(
                    old(self).hooks()[old(self).cursor() as int],
                    HookState::Effect(r.unwrap()),
                )
                &&& k == HookKind::Memo ==> hook_cloned(
                    old(self).hooks()[old(self).cursor() as int],
                    HookState::Memo(r.unwrap()),
                )
                &&& final(self).cursor() == old(self).cursor() + 1
            },
            old(self).cursor() >= old(self).hooks().len() ==> r.is_none() && final(self).cursor()
                == old(self).cursor(),
            final(self).hooks() == old(self).hooks(),
            final(self).keeps_rest_of(old(self)),
            final(self).wf(),
    {
        match self.next_hook() {
            Some(HookState::Effect(p)) => Some(p),
            Some(HookState::Memo(p)) => Some(p),
            _ => None,
        }
    }

    /// The record of an observer hook at the cursor: observer entity, target entity
    /// and dependency payload, or `None` where the observer is still to be spawned.
    pub fn reuse_observer(&mut self) -> (r: Option<(u64, u64, P)>)
        where
            P: Clone,
        requires
            old(self).next_is(HookKind::Observer),
        ensures
            old(self).cursor() < old(self).hooks().len() ==> {
                &&& r.is_some()
                &&& hook_cloned(
                    old(self).hooks()[old(self).cursor() as int],
                    HookState::Observer(r.unwrap().0, r.unwrap().1, r.unwrap().2),
                )
                &&& final(self).cursor() == old(self).cursor() + 1
            },
            old(self).cursor() >= old(self).hooks().len() ==> r.is_none() && final(self).cursor()
                == old(self).cursor(),
            final(self).hooks() == old(self).hooks(),
            final(self).keeps_rest_of(old(self)),
            final(self).wf(),
    {
        match self.next_hook() {
            Some(HookState::Observer(o, t, p)) => Some((o, t, p)),
            _ => None,
        }
    }

    /// Records `hook` for the current call: it overwrites the record found at the
    /// cursor (`found`), or is appended after the last one.
    pub fn record_hook(&mut self, found: bool, hook: HookState<P>)
        requires
            found ==> old(self).can_replace(hook.kind()),
            !found ==> old(self).can_push(),
        ensures
            found ==> final(self).hooks() == old(self).hooks().update(
                old(self).cursor() - 1,
                hook,
            ),
            found ==> final(self).cursor() == old(self).cursor(),
            !found ==> final(self).hooks() == old(self).hooks().push(hook),
            !found ==> final(self).cursor() == old(self).cursor() + 1,
            final(self).keeps_rest_of(old(self)),
            final(self).wf(),
    {
        if found {
            self.replace_hook(hook);
        } else {
            self.push_hook(hook);
        }
    }

    /// Settles an effect hook after its record was looked up (`found`) and its
    /// dependency value compared with the recorded one (`deps_equal`). Returns whether
    /// the effect runs now; `deps` is recorded wherever it is new.
    pub fn settle_effect(
        &mut self,
        found: bool,
        deps_equal: bool,
        options: EffectOptions,
        deps: P,
    ) -> (run: bool)
        requires
            found ==> old(self).can_replace(HookKind::Effect),
            !found ==> old(self).can_push(),
        ensures
            run == effect_runs(found, deps_equal, options.run_immediately),
            !found ==> final(self).hooks() == old(self).hooks().push(HookState::Effect(deps)),
            !found ==> final(self).cursor() == old(self).cursor() + 1,
            found && !deps_equal ==> final(self).hooks() == old(self).hooks().update(
                old(self).cursor() - 1,
                HookState::Effect(deps),
            ),
            found && deps_equal ==> final(self).hooks() == old(self).hooks(),
            found ==> final(self).cursor() == old(self).cursor(),
            final(self).keeps_rest_of(old(self)),
            final(self).wf(),
    {
        if !found {
            self.push_hook(HookState::Effect(deps));
            options.run_immediately
        } else if !deps_equal {
            self.replace_hook(HookState::Effect(deps));
            true
        } else {
            false
        }
    }
}

} // verus!
