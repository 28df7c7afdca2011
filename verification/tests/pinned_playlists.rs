use riff::pinned::{pin_in_map, prune_user_pins, unpin_from_map, PinnedKind, PinnedObject, PinnedObjectsByUser};

fn pl(id: &str) -> PinnedObject {
    PinnedObject::new(id, PinnedKind::Playlist)
}

#[test]
fn pin_adds_id() {
    let mut map = PinnedObjectsByUser::new();
    assert!(pin_in_map(&mut map, "user1", &pl("pl1")));
    assert_eq!(*map.get("user1").unwrap(), vec![pl("pl1")]);
}

#[test]
fn double_pin_is_idempotent() {
    let mut map = PinnedObjectsByUser::new();
    assert!(pin_in_map(&mut map, "user1", &pl("pl1")));
    assert!(!pin_in_map(&mut map, "user1", &pl("pl1")));
    assert_eq!(map.get("user1").unwrap().len(), 1);
}

#[test]
fn unpin_removes_id() {
    let mut map = PinnedObjectsByUser::new();
    pin_in_map(&mut map, "user1", &pl("pl1"));
    assert!(unpin_from_map(
        &mut map,
        "user1",
        "pl1",
        PinnedKind::Playlist
    ));
    assert!(!map.contains_key("user1"));
}

#[test]
fn unpin_last_item_yields_empty_map() {
    let mut map = PinnedObjectsByUser::new();
    pin_in_map(&mut map, "user1", &pl("pl1"));
    unpin_from_map(&mut map, "user1", "pl1", PinnedKind::Playlist);
    assert!(map.is_empty());
}

#[test]
fn is_playlist_pinned_checks_user_scope() {
    let mut map = PinnedObjectsByUser::new();
    pin_in_map(&mut map, "user1", &pl("pl1"));
    assert!(map
        .get("user1")
        .unwrap()
        .iter()
        .any(|o| o.id == "pl1" && o.kind == PinnedKind::Playlist));
    assert!(!map
        .get("user2")
        .is_some_and(|objects| objects.iter().any(|o| o.id == "pl1")));
}

#[test]
fn prune_drops_orphan_ids() {
    let mut map = PinnedObjectsByUser::new();
    pin_in_map(&mut map, "user1", &pl("pl1"));
    pin_in_map(&mut map, "user1", &pl("pl2"));
    assert!(prune_user_pins(
        &mut map,
        "user1",
        PinnedKind::Playlist,
        &["pl1".to_string()],
    ));
    assert_eq!(*map.get("user1").unwrap(), vec![pl("pl1")]);
}

#[test]
fn kind_is_part_of_identity() {
    let mut map = PinnedObjectsByUser::new();
    pin_in_map(
        &mut map,
        "user1",
        &PinnedObject::new("id1", PinnedKind::Album),
    );
    pin_in_map(
        &mut map,
        "user1",
        &PinnedObject::new("id1", PinnedKind::Artist),
    );
    assert_eq!(map.get("user1").unwrap().len(), 2);
    assert!(unpin_from_map(&mut map, "user1", "id1", PinnedKind::Album));
    assert_eq!(map.get("user1").unwrap()[0].kind, PinnedKind::Artist);
}

#[test]
fn prune_is_kind_scoped() {
    let mut map = PinnedObjectsByUser::new();
    pin_in_map(&mut map, "user1", &pl("pl1"));
    pin_in_map(
        &mut map,
        "user1",
        &PinnedObject::new("alb1", PinnedKind::Album),
    );
    assert!(prune_user_pins(
        &mut map,
        "user1",
        PinnedKind::Album,
        &["alb2".to_string()],
    ));
    assert_eq!(map.get("user1").unwrap().len(), 1);
    assert_eq!(map.get("user1").unwrap()[0].kind, PinnedKind::Playlist);
}
