//! Actions bound to the edges between tiles, and the events they raise when a character
//! walks along such an edge.

use vstd::prelude::*;

use crate::tile::TileEdge;

verus! {

/// A camera effect played when a character crosses an edge.
#[derive(Clone, Copy, Debug, PartialEq, Eq, Structural)]
pub enum CameraAnimation {
    ZoomWarp { reverse: bool },
}

/// What crossing an edge does; `E` identifies entities, `H` refers to sprite animations.
#[derive(Clone, Debug)]
pub enum TileEventAction<E, H> {
    LoadNextLozo { next_lozo_id: String, after_animation: Option<CameraAnimation> },
    UnloadNextLozo,
    ActivateNextLozo,
    SpriteAnimation { sprite_entity: E, animation: H },
    CameraAnimation(CameraAnimation),
}

/// An event raised by an action, for the character `trigger` in the lozo `current`.
#[derive(Clone, Debug)]
pub enum TileEvent<E, H> {
    LoadNextLozo { current: E, next: String, trigger: E, after_animation: Option<CameraAnimation> },
    UnloadNextLozo { trigger: E },
    ActivateNextLozo { trigger: E },
    PlaySpriteAnimation { sprite_entity: E, animation: H },
    PlayCameraAnimation { trigger: E, kind: CameraAnimation },
}

/// `event` is what `action` raises for the character `trigger` in the lozo `lozo`.
pub open spec fn raises<E, H: Clone>(
    action: TileEventAction<E, H>,
    trigger: E,
    lozo: E,
    event: TileEvent<E, H>,
) -> bool {
    match action {
        TileEventAction::LoadNextLozo { next_lozo_id, after_animation } => match event {
            TileEvent::LoadNextLozo { current, next, trigger: t, after_animation: a } => current == lozo
                && next@ == next_lozo_id@ && t == trigger && a == after_animation,
            _ => false,
        },
        TileEventAction::UnloadNextLozo => event == TileEvent::<E, H>::UnloadNextLozo { trigger },
        TileEventAction::ActivateNextLozo => event == TileEvent::<E, H>::ActivateNextLozo { trigger },
        TileEventAction::SpriteAnimation { sprite_entity, animation } => match event {
            TileEvent::PlaySpriteAnimation { sprite_entity: s, animation: h } => s == sprite_entity
                && cloned(animation, h),
            _ => false,
        },
        TileEventAction::CameraAnimation(kind) => event == TileEvent::<E, H>::PlayCameraAnimation {
            trigger,
            kind,
        },
    }
}

impl<E: Copy, H: Clone> TileEventAction<E, H> {
    /// The event this action raises for the character `trigger` in the lozo `lozo`.
    pub fn trigger_event(&self, trigger: E, lozo: E) -> (event: TileEvent<E, H>)
        ensures
            raises(*self, trigger, lozo, event),
    {
        match self {
            TileEventAction::LoadNextLozo { next_lozo_id, after_animation } => TileEvent::LoadNextLozo {
                current: lozo,
                next: next_lozo_id.clone(),
                trigger,
                after_animation: *after_animation,
            },
            TileEventAction::SpriteAnimation { sprite_entity, animation } => TileEvent::PlaySpriteAnimation {
                sprite_entity: *sprite_entity,
                animation: animation.clone(),
            },
            TileEventAction::ActivateNextLozo => TileEvent::ActivateNextLozo { trigger },
            TileEventAction::UnloadNextLozo => TileEvent::UnloadNextLozo { trigger },
            TileEventAction::CameraAnimation(kind) => TileEvent::PlayCameraAnimation { trigger, kind: *kind },
        }
    }
}

/// Index of the first entry for `edge` at or after `start`, if any.
pub open spec fn first_entry_from<A>(entries: Seq<(TileEdge, Vec<A>)>, edge: TileEdge, start: int) -> Option<int>
    decreases entries.len() - start,
{
    if start < 0 || start >= entries.len() {
        None
    } else if entries[start].0 == edge {
        Some(start)
    } else {
        first_entry_from(entries, edge, start + 1)
    }
}

/// Index of the first entry for `edge`, if any.
pub open spec fn first_entry<A>(entries: Seq<(TileEdge, Vec<A>)>, edge: TileEdge) -> Option<int> {
    first_entry_from(entries, edge, 0)
}

/// No edge is bound twice in `entries`.
pub open spec fn edges_distinct<A>(entries: Seq<(TileEdge, Vec<A>)>) -> bool {
    forall|i: int, j: int| 0 <= i < j < entries.len() ==> #[trigger] entries[i].0 != #[trigger] entries[j].0
}

/// The actions bound to each edge of a lozo, for one kind of crossing; each edge is bound
/// at most once.
pub struct TileEdgeEvents<A> {
    entries: Vec<(TileEdge, Vec<A>)>,
}

impl<A> TileEdgeEvents<A> {
    #[verifier::type_invariant]
    spec fn bound_once(self) -> bool {
        edges_distinct(self.entries@)
    }

    /// The bindings, in the order they were given.
    pub closed spec fn entries(self) -> Seq<(TileEdge, Vec<A>)> {
        self.entries@
    }

    /// The actions bound to `edge`: those of its binding, or none.
    pub open spec fn actions_for(self, edge: TileEdge) -> Seq<A> {
        match first_entry(self.entries(), edge) {
            Some(i) => self.entries()[i].1@,
            None => Seq::empty(),
        }
    }

    /// Actions bound to edges, each edge at most once.
    pub fn new(entries: Vec<(TileEdge, Vec<A>)>) -> (events: TileEdgeEvents<A>)
        requires
            edges_distinct(entries@),
        ensures
            events.entries() == entries@,
    {
        TileEdgeEvents { entries }
    }

    /// Index of the first binding of `edge`.
    fn find(&self, edge: &TileEdge) -> (r: Option<usize>)
        ensures
            r matches Some(i) ==> i < self.entries().len() && first_entry(self.entries(), *edge) == Some(
                i as int,
            ),
            r is None ==> first_entry(self.entries(), *edge) is None,
    {
        let mut i: usize = 0;
        while i < self.entries.len()
            invariant
                i <= self.entries@.len(),
                first_entry(self.entries@, *edge) == first_entry_from(self.entries@, *edge, i as int),
            decreases self.entries@.len() - i,
        {
            if self.entries[i].0 == *edge {
                return Some(i);
            }
            i = i + 1;
        }
        None
    }
}

impl<A> TileEdgeEvents<A> {
    /// The actions bound to `edge`, in order.
    pub fn get(&self, edge: &TileEdge) -> (actions: &[A])
        ensures
            actions@ == self.actions_for(*edge),
    {
        match self.find(edge) {
            Some(i) => {
                let actions = self.entries[i].1.as_slice();
                assert(actions@ == self.entries()[i as int].1@);
                actions
            },
            None => {
                let actions: &[A] = &[];
                assert(actions@ =~= Seq::<A>::empty());
                actions
            },
        }
    }
}

impl<E: Copy, H: Clone> TileEdgeEvents<TileEventAction<E, H>> {
    /// The events raised when the character `trigger` of the lozo `lozo` walks along `edge`:
    /// one per bound action, in order.
    pub fn trigger(&self, trigger: E, edge: &TileEdge, lozo: E) -> (events: Vec<TileEvent<E, H>>)
        ensures
            events@.len() == self.actions_for(*edge).len(),
            forall|k: int|
                0 <= k < events@.len() ==> raises(
                    self.actions_for(*edge)[k],
                    trigger,
                    lozo,
                    #[trigger] events@[k],
                ),
    {
        let actions = self.get(edge);
        let mut events: Vec<TileEvent<E, H>> = Vec::new();
        let mut k: usize = 0;
        while k < actions.len()
            invariant
                k <= actions@.len(),
                actions@ == self.actions_for(*edge),
                events@.len() == k,
                forall|m: int| 0 <= m < k ==> raises(actions@[m], trigger, lozo, #[trigger] events@[m]),
            decreases actions@.len() - k,
        {
            events.push(actions[k].trigger_event(trigger, lozo));
            k = k + 1;
        }
        events
    }
}

} // verus!
