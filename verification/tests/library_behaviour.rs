use riff::details_header::{
    header_measure, image_classes, like_icon, pin_button_look, play_button_look, subtitle_link_items, HeaderImageShape,
    HeaderRows, SubtitleItem,
};
use riff::feature_flags::FeatureFlag;
use riff::pinned::{
    get_pinned_objects, is_object_pinned, pin_in_map, prune_user_pins, unpin_from_map, PinnedKind,
    PinnedObject, PinnedObjectsByUser,
};
use riff::playlist_menu::{build_playlist_menu, playlist_action_names, playlist_link, MenuLabel};
use riff::segmented_button::{ExpandBehavior, SegmentedState};
use riff::settings::{
    ap_port_from_gsettings, audio_backend_from_gsettings, audio_format_from_gsettings_enum,
    bitrate_from_gsettings_enum, decode_player_settings, normalisation_method_from_gsettings_enum,
    normalisation_type_from_gsettings_enum, repeat_mode_from_gsettings, repeat_mode_to_gsettings,
    theme_from_gsettings_enum, volume_curve_from_gsettings_enum, AudioBackend, AudioFormat, Bitrate,
    CloseWindowBehavior, NormalisationMethod, NormalisationType, RepeatMode, StoredPlayerSettings,
    ThemePreference, VolumeCurveType, WindowGeometry,
};
use riff::state_tracker::{
    setting_write_for, sort_order_key, CardLayout, CardSize, SettingValue, TrackedChange,
};

fn obj(id: &str, kind: PinnedKind) -> PinnedObject {
    PinnedObject::new(id, kind)
}

#[test]
fn pins_keep_their_order() {
    let mut map = PinnedObjectsByUser::new();
    assert!(pin_in_map(&mut map, "u", &obj("b", PinnedKind::Album)));
    assert!(pin_in_map(&mut map, "u", &obj("a", PinnedKind::Track)));
    assert!(pin_in_map(&mut map, "u", &obj("c", PinnedKind::Artist)));
    let ids: Vec<String> = get_pinned_objects(&map, "u").into_iter().map(|o| o.id).collect();
    assert_eq!(ids, vec!["b".to_string(), "a".to_string(), "c".to_string()]);
    assert!(get_pinned_objects(&map, "nobody").is_empty());
}

#[test]
fn is_object_pinned_matches_id_kind_and_user() {
    let mut map = PinnedObjectsByUser::new();
    pin_in_map(&mut map, "u1", &obj("x", PinnedKind::Playlist));
    assert!(is_object_pinned(&map, "u1", "x", PinnedKind::Playlist));
    assert!(!is_object_pinned(&map, "u1", "x", PinnedKind::Album));
    assert!(!is_object_pinned(&map, "u1", "y", PinnedKind::Playlist));
    assert!(!is_object_pinned(&map, "u2", "x", PinnedKind::Playlist));
}

#[test]
fn unpin_of_unknown_user_or_object_changes_nothing() {
    let mut map = PinnedObjectsByUser::new();
    assert!(!unpin_from_map(&mut map, "u", "x", PinnedKind::Playlist));
    assert!(map.is_empty());
    pin_in_map(&mut map, "u", &obj("x", PinnedKind::Playlist));
    assert!(!unpin_from_map(&mut map, "u", "y", PinnedKind::Playlist));
    assert_eq!(*map.get("u").unwrap(), vec![obj("x", PinnedKind::Playlist)]);
}

#[test]
fn unpin_undoes_pin() {
    let mut map = PinnedObjectsByUser::new();
    pin_in_map(&mut map, "u", &obj("a", PinnedKind::Album));
    pin_in_map(&mut map, "v", &obj("b", PinnedKind::Track));
    pin_in_map(&mut map, "u", &obj("c", PinnedKind::Playlist));
    assert!(unpin_from_map(&mut map, "u", "c", PinnedKind::Playlist));
    assert_eq!(*map.get("u").unwrap(), vec![obj("a", PinnedKind::Album)]);
    assert_eq!(*map.get("v").unwrap(), vec![obj("b", PinnedKind::Track)]);
}

#[test]
fn pins_of_one_user_leave_others_alone() {
    let mut map = PinnedObjectsByUser::new();
    pin_in_map(&mut map, "u", &obj("a", PinnedKind::Album));
    pin_in_map(&mut map, "v", &obj("a", PinnedKind::Album));
    assert!(prune_user_pins(&mut map, "u", PinnedKind::Album, &[]));
    assert!(!map.contains_key("u"));
    assert_eq!(*map.get("v").unwrap(), vec![obj("a", PinnedKind::Album)]);
}

#[test]
fn prune_without_change_reports_false() {
    let mut map = PinnedObjectsByUser::new();
    assert!(!prune_user_pins(&mut map, "u", PinnedKind::Album, &[]));
    pin_in_map(&mut map, "u", &obj("a", PinnedKind::Album));
    pin_in_map(&mut map, "u", &obj("p", PinnedKind::Playlist));
    assert!(!prune_user_pins(&mut map, "u", PinnedKind::Album, &["a".to_string(), "z".to_string()]));
    assert_eq!(map.get("u").unwrap().len(), 2);
}

#[test]
fn loaded_empty_list_is_dropped_on_unpin() {
    let mut map = PinnedObjectsByUser::new();
    map.insert("u".to_string(), Vec::new());
    assert!(map.contains_key("u"));
    assert!(!unpin_from_map(&mut map, "u", "x", PinnedKind::Track));
    assert!(!map.contains_key("u"));
    map.insert("w".to_string(), Vec::new());
    assert!(pin_in_map(&mut map, "w", &obj("x", PinnedKind::Track)));
    assert_eq!(map.entries().len(), 1);
}

#[test]
fn close_window_behavior_codes() {
    assert_eq!(CloseWindowBehavior::from_gsettings_enum(0), CloseWindowBehavior::Ask);
    assert_eq!(CloseWindowBehavior::from_gsettings_enum(1), CloseWindowBehavior::MinimizeToBackground);
    assert_eq!(CloseWindowBehavior::from_gsettings_enum(2), CloseWindowBehavior::StopAndQuit);
    assert_eq!(CloseWindowBehavior::from_gsettings_enum(7), CloseWindowBehavior::Ask);
    assert_eq!(CloseWindowBehavior::from_gsettings_enum(-1), CloseWindowBehavior::Ask);
    assert_eq!(CloseWindowBehavior::default(), CloseWindowBehavior::Ask);
    assert_eq!(
        WindowGeometry::default(),
        WindowGeometry { width: 0, height: 0, is_maximized: false }
    );
}

#[test]
fn enum_codes_decode() {
    assert_eq!(theme_from_gsettings_enum(0), Some(ThemePreference::ForceLight));
    assert_eq!(theme_from_gsettings_enum(1), Some(ThemePreference::ForceDark));
    assert_eq!(theme_from_gsettings_enum(2), Some(ThemePreference::Default));
    assert_eq!(theme_from_gsettings_enum(3), None);
    assert_eq!(bitrate_from_gsettings_enum(0), Some(Bitrate::Bitrate96));
    assert_eq!(bitrate_from_gsettings_enum(2), Some(Bitrate::Bitrate320));
    assert_eq!(bitrate_from_gsettings_enum(3), None);
    assert_eq!(audio_backend_from_gsettings(0, "hw:0"), Some(AudioBackend::PulseAudio));
    assert_eq!(audio_backend_from_gsettings(1, "hw:0"), Some(AudioBackend::Alsa("hw:0".to_string())));
    assert_eq!(audio_backend_from_gsettings(2, "hw:0"), None);
    assert_eq!(volume_curve_from_gsettings_enum(2), VolumeCurveType::Cubic);
    assert_eq!(volume_curve_from_gsettings_enum(9), VolumeCurveType::Log);
    assert_eq!(normalisation_type_from_gsettings_enum(2), NormalisationType::Album);
    assert_eq!(normalisation_type_from_gsettings_enum(-4), NormalisationType::Auto);
    assert_eq!(normalisation_method_from_gsettings_enum(1), NormalisationMethod::Basic);
    assert_eq!(normalisation_method_from_gsettings_enum(5), NormalisationMethod::Dynamic);
    assert_eq!(audio_format_from_gsettings_enum(2), AudioFormat::S24_3);
    assert_eq!(audio_format_from_gsettings_enum(5), AudioFormat::F64);
    assert_eq!(audio_format_from_gsettings_enum(6), AudioFormat::S16);
}

#[test]
fn ap_port_zero_means_any() {
    assert_eq!(ap_port_from_gsettings(0), None);
    assert_eq!(ap_port_from_gsettings(1), Some(1));
    assert_eq!(ap_port_from_gsettings(443), Some(443));
    assert_eq!(ap_port_from_gsettings(65535), Some(65535));
    assert_eq!(ap_port_from_gsettings(65536), None);
}

#[test]
fn repeat_mode_strings_round_trip() {
    for mode in [RepeatMode::Track, RepeatMode::Context, RepeatMode::Off] {
        assert_eq!(repeat_mode_from_gsettings(repeat_mode_to_gsettings(mode)), mode);
    }
    assert_eq!(repeat_mode_to_gsettings(RepeatMode::Track), "song");
    assert_eq!(repeat_mode_to_gsettings(RepeatMode::Context), "playlist");
    assert_eq!(repeat_mode_to_gsettings(RepeatMode::Off), "none");
    assert_eq!(repeat_mode_from_gsettings("bogus"), RepeatMode::Off);
}

fn stored(bitrate: i32, backend: i32) -> StoredPlayerSettings {
    StoredPlayerSettings {
        bitrate,
        audio_backend: backend,
        alsa_device: "default".to_string(),
        gapless: true,
        ap_port: 4070,
        shuffle: true,
        skip_explicit: false,
        repeat: "playlist".to_string(),
        volume_curve: 1,
        normalisation: true,
        normalisation_type: 1,
        normalisation_method: 0,
        audio_format: 3,
        mono_audio: false,
    }
}

#[test]
fn player_settings_decode() {
    assert!(decode_player_settings(&stored(3, 0)).is_none());
    assert!(decode_player_settings(&stored(1, 5)).is_none());
    let options = decode_player_settings(&stored(1, 1)).unwrap();
    assert_eq!(options.bitrate, Bitrate::Bitrate160);
    assert_eq!(options.backend, AudioBackend::Alsa("default".to_string()));
    assert!(options.gapless);
    assert_eq!(options.ap_port, Some(4070));
    assert!(options.shuffle);
    assert!(!options.skip_explicit);
    assert_eq!(options.repeat, RepeatMode::Context);
    assert_eq!(options.volume_curve, VolumeCurveType::Linear);
    assert!(options.normalisation);
    assert_eq!(options.normalisation_type, NormalisationType::Track);
    assert_eq!(options.normalisation_method, NormalisationMethod::Dynamic);
    assert_eq!(options.audio_format, AudioFormat::S32);
    assert!(!options.mono_audio);
}

#[test]
fn card_settings_round_trip() {
    for layout in [CardLayout::Vertical, CardLayout::ImageOnly, CardLayout::Horizontal] {
        assert_eq!(CardLayout::from_gsettings_str(layout.to_gsettings_str()), layout);
    }
    for size in [CardSize::Small, CardSize::Medium, CardSize::Large] {
        assert_eq!(CardSize::from_gsettings_str(size.to_gsettings_str()), size);
    }
    assert_eq!(CardLayout::ImageOnly.to_gsettings_str(), "image-only");
    assert_eq!(CardLayout::from_gsettings_str("weird"), CardLayout::Vertical);
    assert_eq!(CardSize::from_gsettings_str(""), CardSize::Large);
    assert_eq!(sort_order_key("saved-albums"), "sort-saved-albums");
}

#[test]
fn tracked_changes_become_writes() {
    let w = setting_write_for(TrackedChange::ShuffleChanged(true));
    assert_eq!(w.key, "shuffle");
    assert_eq!(w.value, SettingValue::Boolean(true));
    let w = setting_write_for(TrackedChange::RepeatModeChanged(RepeatMode::Track));
    assert_eq!(w.key, "repeat");
    assert_eq!(w.value, SettingValue::Text("song"));
    let w = setting_write_for(TrackedChange::CardLayoutChanged(CardLayout::Horizontal));
    assert_eq!(w.key, "card-layout");
    assert_eq!(w.value, SettingValue::Text("horizontal"));
    let w = setting_write_for(TrackedChange::CardSizeChanged(CardSize::Medium));
    assert_eq!(w.key, "card-size");
    assert_eq!(w.value, SettingValue::Text("medium"));
}

#[test]
fn feature_flags_have_distinct_keys() {
    let all = FeatureFlag::all();
    assert_eq!(all.len(), 5);
    let keys: Vec<&str> = all.iter().map(|f| f.key()).collect();
    for (i, a) in keys.iter().enumerate() {
        for (j, b) in keys.iter().enumerate() {
            assert_eq!(i == j, a == b);
        }
    }
    assert_eq!(FeatureFlag::PinnedPlaylists.key(), "feature-pinned-playlists");
    assert_eq!(FeatureFlag::Normalisation.title(), "Audio Normalisation");
    assert_eq!(
        FeatureFlag::PinnedPlaylists.description(),
        "Enable pinning objects to the sidebar."
    );
}

#[test]
fn segmented_button_on_click_toggles() {
    let mut s = SegmentedState::new();
    let update = s.set_expand_behavior(ExpandBehavior::OnClick);
    assert!(!update.hover_controller);
    assert_eq!(update.expanded_change, None);
    assert!(s.add_segment());
    assert!(!s.add_segment());
    assert_eq!(s.count(), 2);
    assert_eq!(s.click_first(), Some(true));
    assert!(s.is_expanded());
    assert_eq!(s.click_first(), Some(false));
    assert!(!s.is_expanded());
}

#[test]
fn segmented_button_hover_and_always_ignore_clicks() {
    let mut s = SegmentedState::new();
    s.add_segment();
    s.add_segment();
    let update = s.set_expand_behavior(ExpandBehavior::OnHover);
    assert!(update.hover_controller);
    assert_eq!(s.click_first(), None);
    assert_eq!(s.set_expanded_internal(true), Some(true));
    assert_eq!(s.set_expanded_internal(true), None);
    assert_eq!(s.click_first(), None);
    assert!(s.is_expanded());
    let mut t = SegmentedState::new();
    let update = t.set_expand_behavior(ExpandBehavior::AlwaysExpanded);
    assert_eq!(update.expanded_change, Some(true));
    assert_eq!(t.click_first(), None);
    assert!(t.is_expanded());
    assert_eq!(t.behavior(), ExpandBehavior::AlwaysExpanded);
    assert_eq!(ExpandBehavior::default(), ExpandBehavior::OnClick);
}

#[test]
fn hiding_last_extra_segment_collapses() {
    let mut s = SegmentedState::new();
    s.add_segment();
    s.add_segment();
    s.add_segment();
    s.click_first();
    assert_eq!(s.set_icon_visible(1, false), (true, None));
    assert!(s.is_expanded());
    assert_eq!(s.set_icon_visible(2, false), (true, Some(false)));
    assert!(!s.is_expanded());
    assert_eq!(s.set_icon_visible(7, true), (false, None));
    s.set_icon_visible(0, false);
    assert!(!s.is_expanded());
}

#[test]
fn header_image_classes() {
    let square = image_classes(HeaderImageShape::Square);
    assert!(square.image.is_empty());
    assert_eq!(square.image_box, vec!["details-header__image-placeholder", "card"]);
    let circle = image_classes(HeaderImageShape::Circle);
    assert_eq!(circle.image, vec!["details-header__image--circular"]);
    assert_eq!(
        circle.image_box,
        vec!["details-header__image-placeholder", "card", "details-header__image--circular"]
    );
}

#[test]
fn header_rows_keep_subtitle_and_links_apart() {
    let mut rows = HeaderRows { caption: true, subtitle: true, links: false };
    rows.set_caption("");
    assert!(!rows.caption);
    rows.set_caption("Album");
    assert!(rows.caption);
    rows.set_subtitle_links(2);
    assert!(rows.links && !rows.subtitle);
    rows.set_subtitle("Someone");
    assert!(!rows.links && rows.subtitle);
    rows.set_subtitle_links(0);
    assert!(!rows.links && rows.subtitle);
    rows.set_subtitle("");
    assert!(!rows.subtitle);
}

#[test]
fn header_button_looks() {
    assert_eq!(play_button_look(true), ("media-playback-pause-symbolic", "Pause"));
    assert_eq!(play_button_look(false), ("media-playback-start-symbolic", "Play"));
    assert_eq!(like_icon(true), "starred-symbolic");
    assert_eq!(like_icon(false), "non-starred-symbolic");
    assert_eq!(pin_button_look(true), ("view-pin-symbolic", "Unpin from Sidebar"));
    assert_eq!(pin_button_look(false), ("view-pin-outline-symbolic", "Pin to Sidebar"));
}

#[test]
fn subtitle_links_are_comma_separated() {
    assert!(subtitle_link_items(&Vec::new()).is_empty());
    let artists = vec![
        ("a1".to_string(), "Artist 1".to_string()),
        ("a2".to_string(), "Artist 2".to_string()),
        ("a3".to_string(), "Artist 3".to_string()),
    ];
    let items = subtitle_link_items(&artists);
    let link = |id: &str, name: &str| SubtitleItem::Link { id: id.to_string(), name: name.to_string() };
    assert_eq!(
        items,
        vec![
            link("a1", "Artist 1"),
            SubtitleItem::Separator,
            link("a2", "Artist 2"),
            SubtitleItem::Separator,
            link("a3", "Artist 3"),
        ]
    );
}

#[test]
fn playlist_menu_sections() {
    let mut pins = PinnedObjectsByUser::new();
    pin_in_map(&mut pins, "me", &obj("pl", PinnedKind::Playlist));
    let menu = build_playlist_menu(true, "pl", Some("me"), true, &pins);
    let view: Vec<Vec<(MenuLabel, &str)>> =
        menu.iter().map(|s| s.iter().map(|i| (i.label, i.action)).collect()).collect();
    assert_eq!(
        view,
        vec![
            vec![(MenuLabel::Play, "playlist.play"), (MenuLabel::Shuffle, "playlist.shuffle")],
            vec![(MenuLabel::DeletePlaylist, "playlist.unfollow")],
            vec![(MenuLabel::UnpinPlaylist, "playlist.toggle_pin")],
            vec![(MenuLabel::CopyLink, "playlist.copy_link")],
        ]
    );
    let menu = build_playlist_menu(false, "pl", None, true, &pins);
    assert_eq!(menu[1][0].label, MenuLabel::UnfollowPlaylist);
    assert_eq!(menu[2][0].label, MenuLabel::PinPlaylist);
    let menu = build_playlist_menu(false, "other", Some("me"), true, &pins);
    assert_eq!(menu[2][0].label, MenuLabel::PinPlaylist);
    let menu = build_playlist_menu(false, "pl", Some("me"), false, &pins);
    assert_eq!(menu.len(), 3);
    assert_eq!(menu[2][0].label, MenuLabel::CopyLink);
}

#[test]
fn playlist_actions_and_link() {
    assert_eq!(playlist_action_names(false), vec!["play", "shuffle", "copy_link", "unfollow"]);
    assert_eq!(
        playlist_action_names(true),
        vec!["play", "shuffle", "copy_link", "unfollow", "toggle_pin"]
    );
    assert_eq!(playlist_link("37i9dQ"), "https://open.spotify.com/playlist/37i9dQ");
}

#[test]
fn header_reports_natural_height_as_minimum() {
    assert_eq!(header_measure(true, (1, 240, -1, -1)), (240, 240, -1, -1));
    assert_eq!(header_measure(false, (1, 240, -1, -1)), (1, 240, -1, -1));
}
