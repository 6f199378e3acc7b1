use engine::lozo::{
    activate_switch, detect_lozo_loaded, find_free_lozo_render_layer, take_free_lozo_render_layer,
    DependencyCounters,
    LoadOutcome, LozoState, NextLozo,
};

#[test]
fn phase_completes_with_the_last_part() {
    let mut counters = DependencyCounters::default();
    counters.add_dependency();
    counters.add_dependency();
    counters.register(7);
    counters.register(9);
    assert!(!counters.content_spawned(7));
    assert!(!counters.content_spawned(9));
    assert!(!counters.content_spawned(7));
    assert!(counters.content_spawned(7));
    assert!(!counters.finished(&9));
    counters.increment(&9);
    assert!(!counters.finished(&9));
    counters.increment(&9);
    assert!(counters.finished(&9));
}

#[test]
fn single_part_phase_completes_at_once() {
    let mut counters = DependencyCounters::default();
    counters.register(1);
    assert!(counters.content_spawned(1));
    counters.register(1);
    assert!(counters.content_spawned(1));
}

#[test]
fn free_render_layer_is_smallest_unused_from_one() {
    assert_eq!(find_free_lozo_render_layer(&[]), 1);
    assert_eq!(find_free_lozo_render_layer(&[0]), 1);
    assert_eq!(find_free_lozo_render_layer(&[1, 2, 4]), 3);
    assert_eq!(find_free_lozo_render_layer(&[3, 1, 2, 2]), 4);
}

#[test]
fn next_lozo_loads_and_switches_when_automatic() {
    let mut next = NextLozo::with_target("forest".to_string());
    let (state, drop) = detect_lozo_loaded(LozoState::LoadingLozoAsset, &mut next, LoadOutcome::Loading);
    assert_eq!((state, drop), (LozoState::LoadingLozoAsset, false));
    assert!(next.ready().is_none());
    let (state, drop) = detect_lozo_loaded(state, &mut next, LoadOutcome::Loaded);
    assert_eq!((state, drop), (LozoState::NextReady, false));
    assert!(next.ready().is_some());
    assert_eq!(activate_switch(state, &mut next), LozoState::Switching);
    assert!(next.ready().is_none());
}

#[test]
fn next_lozo_waits_for_activation() {
    let mut next = NextLozo::default();
    next.set("cave".to_string());
    let (state, _) = detect_lozo_loaded(LozoState::LoadingLozoAsset, &mut next, LoadOutcome::Loaded);
    assert_eq!(activate_switch(state, &mut next), LozoState::NextReady);
    next.ready().unwrap().activate();
    assert_eq!(activate_switch(state, &mut next), LozoState::Switching);
}

#[test]
fn setting_same_target_keeps_readiness() {
    let mut next = NextLozo::default();
    next.set("cave".to_string());
    let _ = detect_lozo_loaded(LozoState::LoadingLozoAsset, &mut next, LoadOutcome::Loaded);
    next.set("cave".to_string());
    assert!(next.ready().is_some());
    next.set("town".to_string());
    assert!(next.ready().is_none());
}

#[test]
fn failed_load_forgets_next_lozo() {
    let mut next = NextLozo::with_target("void".to_string());
    let (state, drop) = detect_lozo_loaded(LozoState::LoadingLozoAsset, &mut next, LoadOutcome::Failed);
    assert_eq!((state, drop), (LozoState::Initialized, true));
    assert!(next.ready().is_none());
    let (other, drop) = detect_lozo_loaded(LozoState::Initialized, &mut next, LoadOutcome::Loaded);
    assert_eq!((other, drop), (LozoState::Initialized, false));
    assert_eq!(LozoState::default(), LozoState::LoadingLozoAsset);
}

#[test]
fn automatic_switch_can_be_asked_for_after_setting_a_target() {
    let mut next = NextLozo::default();
    next.set("cave".to_string());
    assert!(!next.auto_activate);
    next.auto_activate = true;
    let (state, _) = detect_lozo_loaded(LozoState::LoadingLozoAsset, &mut next, LoadOutcome::Loaded);
    assert_eq!(activate_switch(state, &mut next), LozoState::Switching);
    assert!(!next.auto_activate);
}

#[test]
fn lozos_loaded_together_get_their_own_layers() {
    let mut taken = vec![1, 3];
    assert_eq!(take_free_lozo_render_layer(&mut taken), 2);
    assert_eq!(take_free_lozo_render_layer(&mut taken), 4);
    assert_eq!(take_free_lozo_render_layer(&mut taken), 5);
    assert_eq!(taken, vec![1, 3, 2, 4, 5]);
}
