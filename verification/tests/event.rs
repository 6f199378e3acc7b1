use engine::event::{CameraAnimation, TileEdgeEvents, TileEvent, TileEventAction};
use engine::math::UVec2;
use engine::tile::TileEdge;

fn edge(a: (u32, u32), b: (u32, u32)) -> TileEdge {
    TileEdge { from: UVec2::new(a.0, a.1), to: UVec2::new(b.0, b.1) }
}

#[test]
fn crossing_an_edge_raises_its_actions_in_order() {
    let door = edge((1, 1), (1, 0));
    let events: TileEdgeEvents<TileEventAction<u64, &str>> = TileEdgeEvents::new(vec![
        (
            door,
            vec![
                TileEventAction::LoadNextLozo {
                    next_lozo_id: "house".to_string(),
                    after_animation: Some(CameraAnimation::ZoomWarp { reverse: true }),
                },
                TileEventAction::SpriteAnimation { sprite_entity: 40, animation: "door_open" },
                TileEventAction::ActivateNextLozo,
            ],
        ),
        (edge((0, 0), (0, 1)), vec![TileEventAction::UnloadNextLozo]),
    ]);
    let raised = events.trigger(5, &door, 9);
    assert_eq!(raised.len(), 3);
    match &raised[0] {
        TileEvent::LoadNextLozo { current, next, trigger, after_animation } => {
            assert_eq!((*current, next.as_str(), *trigger), (9, "house", 5));
            assert_eq!(*after_animation, Some(CameraAnimation::ZoomWarp { reverse: true }));
        }
        _ => panic!("expected a lozo load"),
    }
    assert!(matches!(raised[1], TileEvent::PlaySpriteAnimation { sprite_entity: 40, animation: "door_open" }));
    assert!(matches!(raised[2], TileEvent::ActivateNextLozo { trigger: 5 }));
    assert!(events.trigger(5, &door.reverse(), 9).is_empty());
    let back = events.trigger(3, &edge((0, 0), (0, 1)), 9);
    assert!(matches!(back[0], TileEvent::UnloadNextLozo { trigger: 3 }));
}

#[test]
fn camera_action_raises_camera_event() {
    let action: TileEventAction<u64, ()> = TileEventAction::CameraAnimation(CameraAnimation::ZoomWarp { reverse: false });
    assert!(matches!(
        action.trigger_event(2, 8),
        TileEvent::PlayCameraAnimation { trigger: 2, kind: CameraAnimation::ZoomWarp { reverse: false } }
    ));
}

#[test]
fn unbound_edge_has_no_actions() {
    let e = edge((2, 2), (3, 2));
    let events = TileEdgeEvents::new(vec![(e, vec![1u8, 2]), (e.reverse(), vec![3u8])]);
    assert_eq!(events.get(&e), &[1u8, 2]);
    assert_eq!(events.get(&e.reverse()), &[3u8]);
    assert!(events.get(&edge((0, 0), (1, 0))).is_empty());
}
