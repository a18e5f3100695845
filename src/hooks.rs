//! Hook records: the stateful slots that a scope body creates, identified by position.
use vstd::prelude::*;

verus! {

/// One hook record. Entities are held as their id bits, component kinds as their
/// component id index. `P` is the type-erased payload of effects, memos and observers.
pub enum HookState<P> {
    /// A bare entity owned by the scope.
    Entity(u64),
    /// A mutable cell: the cell entity and the component kind of its value.
    Mutable(u64, usize),
    /// A registered one-shot procedure, by handle.
    Callback(u64),
    /// An effect: the dependency value seen last.
    Effect(P),
    /// A memo: the cached result and the dependency value it was computed from.
    Memo(P),
    /// An observer: the observer entity, its target entity, and its dependency value.
    Observer(u64, u64, P),
}

/// The variant of a hook record, without its payload.
#[derive(PartialEq, Eq, Structural, Clone, Copy, Debug)]
pub enum HookKind {
    Entity,
    Mutable,
    Callback,
    Effect,
    Memo,
    Observer,
}

/// What identifies a hook across runs: its variant and the ids it owns or refers to.
#[derive(PartialEq, Eq, Structural, Clone, Copy, Debug)]
pub enum HookIdentity {
    Entity(u64),
    Mutable(u64, usize),
    Callback(u64),
    Effect,
    Memo,
    Observer(u64, u64),
}

/// A deferred action that tearing a scope down queues for one hook.
#[derive(PartialEq, Eq, Structural, Clone, Copy, Debug)]
pub enum TeardownCmd {
    /// Despawn the entity with these id bits.
    Despawn(u64),
    /// Unregister the one-shot procedure with this handle.
    Unregister(u64),
}

impl<P> HookState<P> {
    pub open spec fn kind(&self) -> HookKind {
        match self {
            HookState::Entity(_) => HookKind::Entity,
            HookState::Mutable(_, _) => HookKind::Mutable,
            HookState::Callback(_) => HookKind::Callback,
            HookState::Effect(_) => HookKind::Effect,
            HookState::Memo(_) => HookKind::Memo,
            HookState::Observer(_, _, _) => HookKind::Observer,
        }
    }

    pub open spec fn identity(&self) -> HookIdentity {
        match self {
            HookState::Entity(e) => HookIdentity::Entity(*e),
            HookState::Mutable(e, c) => HookIdentity::Mutable(*e, *c),
            HookState::Callback(h) => HookIdentity::Callback(*h),
            HookState::Effect(_) => HookIdentity::Effect,
            HookState::Memo(_) => HookIdentity::Memo,
            HookState::Observer(o, t, _) => HookIdentity::Observer(*o, *t),
        }
    }

    /// The teardown commands for this hook alone: one for a hook that owns an
    /// entity or a procedure, none for effects and memos.
    pub open spec fn teardown_spec(&self) -> Seq<TeardownCmd> {
        match self {
            HookState::Entity(e) => seq![TeardownCmd::Despawn(*e)],
            HookState::Mutable(e, _) => seq![TeardownCmd::Despawn(*e)],
            HookState::Observer(o, _, _) => seq![TeardownCmd::Despawn(*o)],
            HookState::Callback(h) => seq![TeardownCmd::Unregister(*h)],
            HookState::Effect(_) => Seq::empty(),
            HookState::Memo(_) => Seq::empty(),
        }
    }

    /// The variant of this record.
    pub fn hook_kind(&self) -> (r: HookKind)
        ensures
            r == self.kind(),
    {
        match self {
            HookState::Entity(_) => HookKind::Entity,
            HookState::Mutable(_, _) => HookKind::Mutable,
            HookState::Callback(_) => HookKind::Callback,
            HookState::Effect(_) => HookKind::Effect,
            HookState::Memo(_) => HookKind::Memo,
            HookState::Observer(_, _, _) => HookKind::Observer,
        }
    }

    /// A copy of this record; the payload is cloned.
    pub fn duplicate(&self) -> (r: HookState<P>)
        where
            P: Clone,
        ensures
            hook_cloned(*self, r),
    {
        match self {
            HookState::Entity(e) => HookState::Entity(*e),
            HookState::Mutable(e, c) => HookState::Mutable(*e, *c),
            HookState::Callback(h) => HookState::Callback(*h),
            HookState::Effect(p) => HookState::Effect(p.clone()),
            HookState::Memo(p) => HookState::Memo(p.clone()),
            HookState::Observer(o, t, p) => HookState::Observer(*o, *t, p.clone()),
        }
    }

    /// The teardown command for this record, if it owns anything.
    pub fn teardown_cmd(&self) -> (r: Option<TeardownCmd>)
        ensures
            r.is_none() <==> self.teardown_spec().len() == 0,
            r.is_some() ==> self.teardown_spec() == seq![r.unwrap()],
    {
        match self {
            HookState::Entity(e) => Some(TeardownCmd::Despawn(*e)),
            HookState::Mutable(e, _) => Some(TeardownCmd::Despawn(*e)),
            HookState::Observer(o, _, _) => Some(TeardownCmd::Despawn(*o)),
            HookState::Callback(h) => Some(TeardownCmd::Unregister(*h)),
            HookState::Effect(_) => None,
            HookState::Memo(_) => None,
        }
    }
}

/// Whether `b` is a copy of record `a`: same variant and ids, and a clone of its payload.
pub open spec fn hook_cloned<P: Clone>(a: HookState<P>, b: HookState<P>) -> bool {
    match (a, b) {
        (HookState::Effect(p), HookState::Effect(q)) => cloned(p, q),
        (HookState::Memo(p), HookState::Memo(q)) => cloned(p, q),
        (HookState::Observer(o, t, p), HookState::Observer(o2, t2, q)) => o == o2 && t == t2
            && cloned(p, q),
        _ => a == b,
    }
}

/// The commands that tearing down hooks `hs` queues: the hooks are walked from the
/// last to the first.
pub open spec fn teardown_cmds<P>(hs: Seq<HookState<P>>) -> Seq<TeardownCmd>
    decreases hs.len(),
{
    if hs.len() == 0 {
        Seq::empty()
    } else {
        hs.last().teardown_spec() + teardown_cmds(hs.drop_last())
    }
}

/// Teardown walks hooks in reverse: an entity, a cell and an observer recorded in
/// that order are despawned observer first, then cell, then entity.
pub proof fn lemma_teardown_reverse<P>(e1: u64, e2: u64, c: usize, e3: u64, target: u64, p: P)
    ensures
        teardown_cmds(
            seq![HookState::Entity(e1), HookState::Mutable(e2, c), HookState::Observer(e3, target, p)],
        ) == seq![TeardownCmd::Despawn(e3), TeardownCmd::Despawn(e2), TeardownCmd::Despawn(e1)],
{
    let h1 = HookState::<P>::Entity(e1);
    let h2 = HookState::<P>::Mutable(e2, c);
    let h3 = HookState::Observer(e3, target, p);
    let empty = Seq::<HookState<P>>::empty();
    lemma_teardown_push(empty, h1);
    lemma_teardown_push(empty.push(h1), h2);
    lemma_teardown_push(empty.push(h1).push(h2), h3);
    assert(empty.push(h1).push(h2).push(h3) =~= seq![h1, h2, h3]);
    assert(teardown_cmds(empty.push(h1)) =~= seq![TeardownCmd::Despawn(e1)]);
    assert(teardown_cmds(empty.push(h1).push(h2)) =~= seq![
        TeardownCmd::Despawn(e2),
        TeardownCmd::Despawn(e1),
    ]);
    assert(teardown_cmds(seq![h1, h2, h3]) =~= seq![
        TeardownCmd::Despawn(e3),
        TeardownCmd::Despawn(e2),
        TeardownCmd::Despawn(e1),
    ]);
}

/// Appending a hook puts its own teardown command in front of the others: the last
/// hook recorded is released first.
pub proof fn lemma_teardown_push<P>(hs: Seq<HookState<P>>, h: HookState<P>)
    ensures
        teardown_cmds(hs.push(h)) == h.teardown_spec() + teardown_cmds(hs),
{
    assert(hs.push(h).drop_last() =~= hs);
}

/// A sequence with no hooks left, as teardown leaves it, releases nothing more.
pub proof fn lemma_teardown_once<P>(hs: Seq<HookState<P>>)
    requires
        hs.len() == 0,
    ensures
        teardown_cmds(hs) == Seq::<TeardownCmd>::empty(),
{
}

} // verus!
