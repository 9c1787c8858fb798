use neurocar::collider::{collider_kind, ColliderKind};

#[test]
fn kinds_round_trip_through_user_data() {
    for kind in [ColliderKind::Unknown, ColliderKind::TrackWall, ColliderKind::Racer] {
        assert_eq!(collider_kind(kind.user_data()), kind);
    }
}

#[test]
fn user_data_tags_are_fixed() {
    assert_eq!(ColliderKind::Unknown.user_data(), 0);
    assert_eq!(ColliderKind::TrackWall.user_data(), 1);
    assert_eq!(ColliderKind::Racer.user_data(), 2);
}

#[test]
fn unknown_tags_read_as_unknown() {
    assert_eq!(collider_kind(0), ColliderKind::Unknown);
    assert_eq!(collider_kind(3), ColliderKind::Unknown);
    assert_eq!(collider_kind(u128::MAX), ColliderKind::Unknown);
}
