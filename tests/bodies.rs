use platformer::bodies::{
    obstacle_body, player_body, tile_attachments, tile_collider_body, BodyKind, BodyPolicy,
    TileAttachment,
};

fn static_surface() -> BodyPolicy {
    BodyPolicy { kind: BodyKind::Static, rotation_locked: false, friction_hundredths: 0 }
}

#[test]
fn tile_geometry_is_static_and_frictionless() {
    assert_eq!(tile_collider_body(), static_surface());
}

#[test]
fn obstacle_is_static_and_frictionless() {
    assert_eq!(obstacle_body(), static_surface());
}

#[test]
fn player_is_dynamic_upright_and_frictionless() {
    let p = player_body();
    assert_eq!(p.kind, BodyKind::Dynamic);
    assert!(p.rotation_locked);
    assert_eq!(p.friction_hundredths, 0);
}

#[test]
fn no_events_no_attachments() {
    assert!(tile_attachments(&Vec::new()).is_empty());
}

#[test]
fn one_attachment_per_event_in_order() {
    let origins = vec![7u64, 3, 7, u64::MAX];
    let r = tile_attachments(&origins);
    assert_eq!(r.len(), 4);
    for (a, o) in r.iter().zip(origins.iter()) {
        assert_eq!(*a, TileAttachment { origin: *o, body: static_surface() });
    }
}

#[test]
fn events_over_many_ticks_match_one_tick() {
    let all = tile_attachments(&vec![1u64, 2, 3]);
    let mut split = tile_attachments(&vec![1u64]);
    split.extend(tile_attachments(&vec![2u64, 3]));
    assert_eq!(all, split);
}
