//! Bookkeeping of lozos, the loaded zones of the overworld: which phases of spawning their
//! content are done, which render layers are free, and the switch to a next lozo.

use vstd::prelude::*;

use std::collections::HashMap;

verus! {

broadcast use vstd::std_specs::hash::group_hash_axioms;

/// Counts, for each lozo being spawned, how many of the parts of a spawn phase are done.
/// Lozos are identified by the bits of their entity.
pub struct DependencyCounters {
    current: HashMap<u64, usize>,
    total: usize,
}

impl Default for DependencyCounters {
    /// Counters for a phase with one part and no lozo.
    fn default() -> (c: DependencyCounters)
        ensures
            c.counts() == Map::<u64, usize>::empty(),
            c.required() == 1,
    {
        DependencyCounters { current: HashMap::new(), total: 1 }
    }
}

impl DependencyCounters {
    /// How many parts are done, per lozo.
    pub closed spec fn counts(self) -> Map<u64, usize> {
        self.current@
    }

    /// How many parts the phase has.
    pub closed spec fn required(self) -> int {
        self.total as int
    }

    /// How many parts the phase has.
    pub fn total(&self) -> (t: usize)
        ensures
            t == self.required(),
    {
        self.total
    }

    /// How many parts are done for `lozo`, if it is counted.
    pub fn count(&self, lozo: &u64) -> (c: Option<usize>)
        ensures
            c == (if self.counts().contains_key(*lozo) {
                Some(self.counts()[*lozo])
            } else {
                None::<usize>
            }),
    {
        match self.current.get(lozo) {
            Some(c) => Some(*c),
            None => None,
        }
    }

    /// Declares one more part of the phase.
    pub fn add_dependency(&mut self)
        requires
            old(self).required() < usize::MAX,
        ensures
            final(self).required() == old(self).required() + 1,
            final(self).counts() == old(self).counts(),
    {
        self.total = self.total + 1;
    }

    /// Starts counting for `lozo` from zero.
    pub fn register(&mut self, lozo: u64)
        ensures
            final(self).counts() == old(self).counts().insert(lozo, 0),
            final(self).required() == old(self).required(),
    {
        self.current.insert(lozo, 0);
    }

    /// Records one more finished part for `lozo`.
    pub fn increment(&mut self, lozo: &u64)
        requires
            old(self).counts().contains_key(*lozo),
            old(self).counts()[*lozo] < usize::MAX,
        ensures
            final(self).counts() == old(self).counts().insert(*lozo, (old(self).counts()[*lozo] + 1) as usize),
            final(self).required() == old(self).required(),
    {
        let count = *self.current.get(lozo).unwrap();
        self.current.insert(*lozo, count + 1);
    }

    /// Whether every part is done for `lozo`.
    pub fn finished(&self, lozo: &u64) -> (r: bool)
        requires
            self.counts().contains_key(*lozo),
        ensures
            r == (self.counts()[*lozo] == self.required()),
    {
        *self.current.get(lozo).unwrap() == self.total
    }

    /// Records that a part of the phase is done for `lozo`; returns whether the phase is now
    /// complete, in which case `lozo` is no longer counted.
    pub fn content_spawned(&mut self, lozo: u64) -> (completed: bool)
        requires
            old(self).counts().contains_key(lozo),
            old(self).counts()[lozo] < usize::MAX,
        ensures
            final(self).required() == old(self).required(),
            completed == (old(self).counts()[lozo] + 1 == old(self).required()),
            completed <==> after_report(old(self).required(), old(self).counts()[lozo] as int) is None,
            !completed ==> after_report(old(self).required(), old(self).counts()[lozo] as int) == Some(
                final(self).counts()[lozo] as int,
            ),
            completed ==> final(self).counts() == old(self).counts().remove(lozo),
            !completed ==> final(self).counts() == old(self).counts().insert(
                lozo,
                (old(self).counts()[lozo] + 1) as usize,
            ),
    {
        self.increment(&lozo);
        if self.finished(&lozo) {
            self.current.remove(&lozo);
            true
        } else {
            false
        }
    }
}

/// The count of a lozo that had counted `count` parts of a phase with `total` parts, after
/// one more part is reported; `None` when that report completes the phase.
pub open spec fn after_report(total: int, count: int) -> Option<int> {
    if count + 1 == total {
        None
    } else {
        Some(count + 1)
    }
}

/// The count of a lozo after `reports` parts of a phase with `total` parts were reported,
/// starting from zero; `None` once the phase completed.
pub open spec fn count_after_reports(total: int, reports: nat) -> Option<int>
    decreases reports,
{
    if reports == 0 {
        Some(0)
    } else {
        match count_after_reports(total, (reports - 1) as nat) {
            Some(c) => after_report(total, c),
            None => None,
        }
    }
}

/// A phase with `total` parts completes exactly with the `total`-th report.
pub proof fn lemma_phase_completes_with_last_part(total: int, reports: nat)
    requires
        total >= 1,
    ensures
        reports < total ==> count_after_reports(total, reports) == Some(reports as int),
        reports >= total ==> count_after_reports(total, reports) is None,
    decreases reports,
{
    if reports > 0 {
        lemma_phase_completes_with_last_part(total, (reports - 1) as nat);
    }
}

/// Linear search of `value` in `values`.
fn contains_layer(values: &[usize], value: usize) -> (r: bool)
    ensures
        r == values@.contains(value),
{
    let mut i: usize = 0;
    while i < values.len()
        invariant
            i <= values@.len(),
            forall|j: int| 0 <= j < i ==> values@[j] != value,
        decreases values@.len() - i,
    {
        if values[i] == value {
            return true;
        }
        i = i + 1;
    }
    false
}

/// If all of `1..=k` are taken, there are at least `k` taken layers.
proof fn lemma_taken_prefix_bounded(layers: Seq<usize>, k: int)
    requires
        0 <= k <= usize::MAX,
        forall|l: int| 1 <= l <= k ==> #[trigger] layers.contains(l as usize),
    ensures
        k <= layers.len(),
{
    let as_ints = layers.map_values(|l: usize| l as int);
    let taken = as_ints.to_set();
    let prefix = vstd::set_lib::set_int_range(1, k + 1);
    vstd::set_lib::lemma_int_range(1, k + 1);
    as_ints.lemma_cardinality_of_set();
    assert forall|l: int| #[trigger] prefix.contains(l) implies taken.contains(l) by {
        assert(layers.contains(l as usize));
        let j = choose|j: int| 0 <= j < layers.len() && layers[j] == l as usize;
        assert(as_ints[j] == l);
        assert(as_ints.contains(l));
    }
    vstd::seq_lib::seq_to_set_is_finite(as_ints);
    vstd::set_lib::lemma_len_subset(prefix, taken);
}

/// The smallest render layer from 1 on that none of `layers` uses.
pub fn find_free_lozo_render_layer(layers: &[usize]) -> (free: usize)
    requires
        layers@.len() < usize::MAX,
    ensures
        free >= 1,
        !layers@.contains(free),
        forall|l: int| 1 <= l < free ==> #[trigger] layers@.contains(l as usize),
{
    let mut candidate: usize = 1;
    loop
        invariant
            1 <= candidate <= layers@.len() + 1,
            layers@.len() < usize::MAX,
            forall|l: int| 1 <= l < candidate ==> #[trigger] layers@.contains(l as usize),
        decreases layers@.len() + 1 - candidate,
    {
        if !contains_layer(layers, candidate) {
            return candidate;
        }
        proof {
            assert forall|l: int| 1 <= l <= candidate implies #[trigger] layers@.contains(l as usize) by {
                if l < candidate {
                } else {
                    assert(l as usize == candidate);
                }
            }
            lemma_taken_prefix_bounded(layers@, candidate as int);
        }
        candidate = candidate + 1;
    }
}

/// Picks the smallest free render layer from 1 on and records it as taken, so that lozos
/// given layers one after another each get their own.
pub fn take_free_lozo_render_layer(taken: &mut Vec<usize>) -> (layer: usize)
    requires
        old(taken)@.len() < usize::MAX,
    ensures
        layer >= 1,
        !old(taken)@.contains(layer),
        forall|l: int| 1 <= l < layer ==> #[trigger] old(taken)@.contains(l as usize),
        final(taken)@ == old(taken)@.push(layer),
{
    let layer = find_free_lozo_render_layer(taken.as_slice());
    taken.push(layer);
    layer
}

/// Layers handed out one after another, each free of the layers taken before it (the first
/// `initial` ones and those handed out earlier), are pairwise distinct and free of the
/// first `initial` ones.
pub proof fn lemma_handed_layers_distinct(initial: Seq<usize>, handed: Seq<usize>)
    requires
        forall|k: int| 0 <= k < handed.len() ==> !(initial + handed.take(k)).contains(#[trigger] handed[k]),
    ensures
        forall|k: int| 0 <= k < handed.len() ==> !initial.contains(#[trigger] handed[k]),
        forall|i: int, j: int| 0 <= i < j < handed.len() ==> #[trigger] handed[i] != #[trigger] handed[j],
{
    assert forall|k: int| 0 <= k < handed.len() implies !initial.contains(#[trigger] handed[k]) by {
        if initial.contains(handed[k]) {
            let m = choose|m: int| 0 <= m < initial.len() && initial[m] == handed[k];
            assert((initial + handed.take(k))[m] == handed[k]);
        }
    }
    assert forall|i: int, j: int| 0 <= i < j < handed.len() implies #[trigger] handed[i] != #[trigger] handed[j] by {
        assert((initial + handed.take(j))[initial.len() + i] == handed[i]);
    }
}

/// A next lozo that finished loading and may be switched to.
#[derive(Debug, Clone, Copy, PartialEq, Eq, Structural)]
pub struct ReadyNextLozo {
    activate: bool,
}

impl ReadyNextLozo {
    /// Whether the switch to the next lozo was asked for.
    pub closed spec fn activated(self) -> bool {
        self.activate
    }

    /// Asks for the switch to the next lozo.
    pub fn activate(&mut self)
        ensures
            final(self).activated(),
    {
        self.activate = true;
    }
}

/// The lozo to switch to next, if any, and how far it got.
pub struct NextLozo {
    id: Option<String>,
    ready: Option<ReadyNextLozo>,
    /// Whether the switch happens as soon as loading finished.
    pub auto_activate: bool,
}

impl Default for NextLozo {
    /// Nothing to switch to.
    fn default() -> (n: NextLozo)
        ensures
            n.target() is None,
            n.ready_state() is None,
            !n.auto_activates(),
    {
        NextLozo { id: None, ready: None, auto_activate: false }
    }
}

impl NextLozo {
    /// The identifier of the lozo to switch to.
    pub closed spec fn target(self) -> Option<Seq<char>> {
        match self.id {
            Some(id) => Some(id@),
            None => None,
        }
    }

    /// Whether the switch happens as soon as loading finished.
    pub closed spec fn auto_activates(self) -> bool {
        self.auto_activate
    }

    /// The loaded next lozo, once loading finished.
    pub closed spec fn ready_state(self) -> Option<ReadyNextLozo> {
        self.ready
    }

    /// A lozo to load and switch to as soon as it is loaded.
    pub fn with_target(id: String) -> (n: NextLozo)
        ensures
            n.target() == Some(id@),
            n.ready_state() is None,
            n.auto_activates(),
    {
        NextLozo { id: Some(id), ready: None, auto_activate: true }
    }

    /// Asks for `target` as the next lozo; asking again for the current target changes
    /// nothing, any other target starts over.
    pub fn set(&mut self, target: String)
        ensures
            old(self).target() == Some(target@) ==> {
                &&& final(self).target() == old(self).target()
                &&& final(self).ready_state() == old(self).ready_state()
                &&& final(self).auto_activates() == old(self).auto_activates()
            },
            old(self).target() != Some(target@) ==> {
                &&& final(self).target() == Some(target@)
                &&& final(self).ready_state() is None
                &&& !final(self).auto_activates()
            },
    {
        if let Some(id) = &self.id {
            if *id == target {
                return;
            }
        }
        self.reset();
        self.id = Some(target);
    }

    /// Access to the loaded next lozo, if loading finished.
    pub fn ready(&mut self) -> (r: Option<&mut ReadyNextLozo>)
        ensures
            match old(self).ready_state() {
                None => r is None && final(self).ready_state() is None,
                Some(rd) => r is Some && *r.unwrap() == rd && final(self).ready_state() == Some(
                    *final(r.unwrap()),
                ),
            },
            final(self).target() == old(self).target(),
            final(self).auto_activates() == old(self).auto_activates(),
    {
        self.ready.as_mut()
    }

    /// Forgets the next lozo.
    pub fn reset(&mut self)
        ensures
            final(self).target() is None,
            final(self).ready_state() is None,
            !final(self).auto_activates(),
    {
        self.id = None;
        self.ready = None;
        self.auto_activate = false;
    }
}

/// Where a lozo is in switching to its next lozo.
#[derive(Debug, PartialEq, Eq, Clone, Copy, Structural)]
pub enum LozoState {
    LoadingLozoAsset,
    NextReady,
    Switching,
    Initialized,
}

impl Default for LozoState {
    fn default() -> (s: LozoState)
        ensures
            s == LozoState::LoadingLozoAsset,
    {
        LozoState::LoadingLozoAsset
    }
}

/// How loading the next lozo's asset is going.
#[derive(Debug, PartialEq, Eq, Clone, Copy, Structural)]
pub enum LoadOutcome {
    Loading,
    Loaded,
    Failed,
}

/// The state of a lozo after checking on its next lozo's loading; returns the new state and
/// whether the transition is dropped. A loaded next lozo becomes ready, activated when it was
/// asked to switch automatically; a failed one is forgotten.
pub fn detect_lozo_loaded(state: LozoState, next_lozo: &mut NextLozo, outcome: LoadOutcome) -> (r: (
    LozoState,
    bool,
))
    ensures
        state != LozoState::LoadingLozoAsset || outcome == LoadOutcome::Loading ==> {
            &&& r == (state, false)
            &&& final(next_lozo).target() == old(next_lozo).target()
            &&& final(next_lozo).ready_state() == old(next_lozo).ready_state()
            &&& final(next_lozo).auto_activates() == old(next_lozo).auto_activates()
        },
        state == LozoState::LoadingLozoAsset && outcome == LoadOutcome::Loaded ==> {
            &&& r == (LozoState::NextReady, false)
            &&& final(next_lozo).target() == old(next_lozo).target()
            &&& final(next_lozo).ready_state() matches Some(rd) && rd.activated()
                == old(next_lozo).auto_activates()
            &&& final(next_lozo).auto_activates() == old(next_lozo).auto_activates()
        },
        state == LozoState::LoadingLozoAsset && outcome == LoadOutcome::Failed ==> {
            &&& r == (LozoState::Initialized, true)
            &&& final(next_lozo).target() is None
            &&& final(next_lozo).ready_state() is None
            &&& !final(next_lozo).auto_activates()
        },
{
    if state != LozoState::LoadingLozoAsset {
        return (state, false);
    }
    match outcome {
        LoadOutcome::Loaded => {
            next_lozo.ready = Some(ReadyNextLozo { activate: next_lozo.auto_activate });
            (LozoState::NextReady, false)
        },
        LoadOutcome::Failed => {
            next_lozo.reset();
            (LozoState::Initialized, true)
        },
        LoadOutcome::Loading => (state, false),
    }
}

/// Switches once the ready next lozo was activated, forgetting it.
pub fn activate_switch(state: LozoState, next_lozo: &mut NextLozo) -> (s: LozoState)
    ensures
        old(next_lozo).ready_state() matches Some(rd) && rd.activated() ==> {
            &&& s == LozoState::Switching
            &&& final(next_lozo).target() is None
            &&& final(next_lozo).ready_state() is None
            &&& !final(next_lozo).auto_activates()
        },
        !(old(next_lozo).ready_state() matches Some(rd) && rd.activated()) ==> {
            &&& s == state
            &&& final(next_lozo).target() == old(next_lozo).target()
            &&& final(next_lozo).ready_state() == old(next_lozo).ready_state()
            &&& final(next_lozo).auto_activates() == old(next_lozo).auto_activates()
        },
{
    let activate = match next_lozo.ready() {
        Some(ready) => ready.activate,
        None => false,
    };
    if activate {
        next_lozo.reset();
        LozoState::Switching
    } else {
        state
    }
}

} // verus!
