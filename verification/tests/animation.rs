use engine::animation::{timer_plan, AnimationKind, AnimationTimer, MissingGroupTimer, TimerKind, TimerPlan};

#[test]
fn timer_starts_at_wrapped_frame() {
    assert_eq!(AnimationTimer::new(None, 4).current(), 0);
    assert_eq!(AnimationTimer::new(Some(6), 4).current(), 2);
    assert_eq!(AnimationTimer::new(Some(3), 4).frame_count(), 4);
}

#[test]
fn timer_cycles_through_frames() {
    let mut t = AnimationTimer::new(Some(1), 3);
    let mut seen = Vec::new();
    for _ in 0..4 {
        t.advance();
        seen.push(t.current());
    }
    assert_eq!(seen, vec![2, 0, 1, 2]);
}

#[test]
fn timer_reload_keeps_frame_in_range() {
    let mut t = AnimationTimer::new(Some(4), 5);
    t.set_frame_count(3);
    assert_eq!(t.current(), 1);
    assert_eq!(t.frame_count(), 3);
    assert_eq!(t.sprite_index(&[10, 11, 12]), 11);
}

#[test]
fn animation_kind_repeats() {
    assert!(AnimationKind::Repeating.is_repeating());
    assert!(!AnimationKind::Once.is_repeating());
}

#[test]
fn timer_plans() {
    assert_eq!(timer_plan(TimerKind::FrameDuration, Some(7), 3, Some(2), Some(90)), Ok(TimerPlan::SpawnOwn { start: 1 }));
    assert_eq!(timer_plan(TimerKind::Group, Some(7), 3, Some(2), Some(90)), Ok(TimerPlan::JoinGroup { current: 2 }));
    assert_eq!(
        timer_plan(TimerKind::Group, None, 3, None, Some(90)),
        Ok(TimerPlan::SpawnGroup { start: 0, frame_millis: 90 })
    );
    assert_eq!(timer_plan(TimerKind::Group, Some(1), 3, None, None), Err(MissingGroupTimer));
}
