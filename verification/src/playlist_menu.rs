//! The context menu of a playlist in the sidebar, and the actions it calls.
use vstd::prelude::*;

use crate::pinned::{is_object_pinned, spec_is_pinned, PinKey, PinnedKind, PinnedObjectsByUser};

verus! {

/// The text of a menu entry, before translation.
#[derive(Clone, Copy, Debug, PartialEq, Eq, Structural)]
pub enum MenuLabel {
    Play,
    Shuffle,
    DeletePlaylist,
    UnfollowPlaylist,
    PinPlaylist,
    UnpinPlaylist,
    CopyLink,
}

/// A menu entry: its label and the detailed name of the action it activates.
#[derive(Clone, Copy, Debug, PartialEq, Eq)]
pub struct MenuItem {
    pub label: MenuLabel,
    pub action: &'static str,
}

impl View for MenuItem {
    type V = (MenuLabel, Seq<char>);

    open spec fn view(&self) -> (MenuLabel, Seq<char>) {
        (self.label, self.action@)
    }
}

/// The names of the actions installed on a playlist row.
pub open spec fn spec_action_names(pins_enabled: bool) -> Seq<Seq<char>> {
    let names = seq!["play"@, "shuffle"@, "copy_link"@, "unfollow"@];
    if pins_enabled {
        names.push("toggle_pin"@)
    } else {
        names
    }
}

/// The detailed name under which the menu refers to the row action `name`.
pub open spec fn in_group(name: Seq<char>) -> Seq<char> {
    "playlist."@ + name
}

/// The sections of the menu, each a list of (label, action).
pub open spec fn spec_playlist_menu(is_owned: bool, pins_enabled: bool, is_pinned: bool) -> Seq<
    Seq<(MenuLabel, Seq<char>)>,
> {
    let playback = seq![
        (MenuLabel::Play, in_group("play"@)),
        (MenuLabel::Shuffle, in_group("shuffle"@)),
    ];
    let delete = seq![
        (
            if is_owned {
                MenuLabel::DeletePlaylist
            } else {
                MenuLabel::UnfollowPlaylist
            },
            in_group("unfollow"@),
        ),
    ];
    let pin = seq![
        (
            if is_pinned {
                MenuLabel::UnpinPlaylist
            } else {
                MenuLabel::PinPlaylist
            },
            in_group("toggle_pin"@),
        ),
    ];
    let link = seq![(MenuLabel::CopyLink, in_group("copy_link"@))];
    if pins_enabled {
        seq![playback, delete, pin, link]
    } else {
        seq![playback, delete, link]
    }
}

/// The views of the sections of a menu.
pub open spec fn menu_view(sections: Seq<Vec<MenuItem>>) -> Seq<Seq<(MenuLabel, Seq<char>)>> {
    sections.map_values(|section: Vec<MenuItem>| section@.map_values(|item: MenuItem| item@))
}

/// The names of the actions to install on the row of the playlist: play,
/// shuffle, copy the link, unfollow, and, where pinning is enabled, toggle the pin.
pub fn playlist_action_names(pins_enabled: bool) -> (names: Vec<&'static str>)
    ensures
        names@.map_values(|name: &'static str| name@) == spec_action_names(pins_enabled),
{
    let mut names: Vec<&'static str> = Vec::new();
    names.push("play");
    names.push("shuffle");
    names.push("copy_link");
    names.push("unfollow");
    if pins_enabled {
        names.push("toggle_pin");
    }
    assert(names@.map_values(|name: &'static str| name@) =~= spec_action_names(pins_enabled));
    names
}

/// The address that the copy-link action puts on the clipboard.
pub fn playlist_link(id: &str) -> (link: String)
    ensures
        link@ == "https://open.spotify.com/playlist/"@ + id@,
{
    let mut link = "https://open.spotify.com/playlist/".to_owned();
    link.append(id);
    link
}

/// The context menu of the playlist `id` in the sidebar. It offers to delete
/// a playlist that the user owns and to unfollow any other; where pinning is
/// enabled it offers to pin or unpin the playlist for `user_id` (a playlist
/// with no signed-in user counts as not pinned).
pub fn build_playlist_menu(
    is_owned: bool,
    id: &str,
    user_id: Option<&str>,
    pins_enabled: bool,
    pins: &PinnedObjectsByUser,
) -> (sections: Vec<Vec<MenuItem>>)
    requires
        pins.wf(),
    ensures
        menu_view(sections@) == spec_playlist_menu(
            is_owned,
            pins_enabled,
            match user_id {
                Some(user) => spec_is_pinned(
                    pins@,
                    user@,
                    PinKey { id: id@, kind: PinnedKind::Playlist },
                ),
                None => false,
            },
        ),
{
    let is_pinned = match user_id {
        Some(user) => is_object_pinned(pins, user, id, PinnedKind::Playlist),
        None => false,
    };
    let mut playback: Vec<MenuItem> = Vec::new();
    playback.push(MenuItem { label: MenuLabel::Play, action: "playlist.play" });
    playback.push(MenuItem { label: MenuLabel::Shuffle, action: "playlist.shuffle" });
    let mut delete: Vec<MenuItem> = Vec::new();
    if is_owned {
        delete.push(MenuItem { label: MenuLabel::DeletePlaylist, action: "playlist.unfollow" });
    } else {
        delete.push(MenuItem { label: MenuLabel::UnfollowPlaylist, action: "playlist.unfollow" });
    }
    let mut link: Vec<MenuItem> = Vec::new();
    link.push(MenuItem { label: MenuLabel::CopyLink, action: "playlist.copy_link" });
    let mut sections: Vec<Vec<MenuItem>> = Vec::new();
    sections.push(playback);
    sections.push(delete);
    if pins_enabled {
        let mut pin: Vec<MenuItem> = Vec::new();
        if is_pinned {
            pin.push(MenuItem { label: MenuLabel::UnpinPlaylist, action: "playlist.toggle_pin" });
        } else {
            pin.push(MenuItem { label: MenuLabel::PinPlaylist, action: "playlist.toggle_pin" });
        }
        sections.push(pin);
    }
    sections.push(link);
    proof {
        reveal_strlit("playlist.play");
        reveal_strlit("playlist.shuffle");
        reveal_strlit("playlist.unfollow");
        reveal_strlit("playlist.toggle_pin");
        reveal_strlit("playlist.copy_link");
        reveal_strlit("playlist.");
        reveal_strlit("play");
        reveal_strlit("shuffle");
        reveal_strlit("unfollow");
        reveal_strlit("toggle_pin");
        reveal_strlit("copy_link");
        assert("playlist.play"@ =~= in_group("play"@));
        assert("playlist.shuffle"@ =~= in_group("shuffle"@));
        assert("playlist.unfollow"@ =~= in_group("unfollow"@));
        assert("playlist.toggle_pin"@ =~= in_group("toggle_pin"@));
        assert("playlist.copy_link"@ =~= in_group("copy_link"@));
        let expected = spec_playlist_menu(is_owned, pins_enabled, is_pinned);
        let got = menu_view(sections@);
        assert(got.len() == expected.len());
        assert forall|k: int| 0 <= k < got.len() implies got[k] =~= expected[k] by {}
        assert(got =~= expected);
    }
    sections
}

/// Every entry of the playlist menu activates an action that is installed on
/// the playlist's row, whatever the ownership and pin state.
pub proof fn lemma_menu_actions_installed(
    is_owned: bool,
    pins_enabled: bool,
    is_pinned: bool,
    section: int,
    entry: int,
)
    requires
        0 <= section < spec_playlist_menu(is_owned, pins_enabled, is_pinned).len(),
        0 <= entry < spec_playlist_menu(is_owned, pins_enabled, is_pinned)[section].len(),
    ensures
        exists|name: Seq<char>|
            spec_action_names(pins_enabled).contains(name) && in_group(name)
                == #[trigger] spec_playlist_menu(is_owned, pins_enabled, is_pinned)[section][entry].1,
{
    let names = spec_action_names(pins_enabled);
    let item = spec_playlist_menu(is_owned, pins_enabled, is_pinned)[section][entry];
    assert(names[0] == "play"@);
    assert(names[1] == "shuffle"@);
    assert(names[2] == "copy_link"@);
    assert(names[3] == "unfollow"@);
    if pins_enabled {
        assert(names[4] == "toggle_pin"@);
    }
    if item.1 == in_group("play"@) {
        assert(names.contains("play"@));
    } else if item.1 == in_group("shuffle"@) {
        assert(names.contains("shuffle"@));
    } else if item.1 == in_group("copy_link"@) {
        assert(names.contains("copy_link"@));
    } else if item.1 == in_group("unfollow"@) {
        assert(names.contains("unfollow"@));
    } else {
        assert(pins_enabled);
        assert(item.1 == in_group("toggle_pin"@));
        assert(names.contains("toggle_pin"@));
    }
}

/// With pinning enabled the menu has four sections, the third being the single
/// pin entry, whose label depends only on whether the playlist is pinned (not
/// on ownership); without pinning it has three and the pin state plays no part.
/// Ownership decides only the label of the delete entry.
pub proof fn lemma_menu_shape(is_owned: bool, is_pinned: bool)
    ensures
        spec_playlist_menu(is_owned, true, is_pinned).len() == 4,
        spec_playlist_menu(is_owned, true, is_pinned)[2].len() == 1,
        spec_playlist_menu(is_owned, true, is_pinned)[2][0].0 == (if is_pinned {
            MenuLabel::UnpinPlaylist
        } else {
            MenuLabel::PinPlaylist
        }),
        spec_playlist_menu(is_owned, true, is_pinned)[2][0].1 == "playlist.toggle_pin"@,
        spec_playlist_menu(is_owned, false, is_pinned).len() == 3,
        spec_playlist_menu(is_owned, false, is_pinned) == spec_playlist_menu(is_owned, false, !is_pinned),
        spec_playlist_menu(is_owned, true, is_pinned)[1][0].0 == (if is_owned {
            MenuLabel::DeletePlaylist
        } else {
            MenuLabel::UnfollowPlaylist
        }),
        spec_playlist_menu(is_owned, false, is_pinned)[1][0].0 == (if is_owned {
            MenuLabel::DeletePlaylist
        } else {
            MenuLabel::UnfollowPlaylist
        }),
        forall|p: bool, k: int|
            0 <= k < spec_playlist_menu(true, p, is_pinned).len() && k != 1 ==> #[trigger] spec_playlist_menu(
                true,
                p,
                is_pinned,
            )[k] == spec_playlist_menu(false, p, is_pinned)[k],
{
    reveal_strlit("playlist.toggle_pin");
    reveal_strlit("playlist.");
    reveal_strlit("toggle_pin");
    assert("playlist.toggle_pin"@ =~= in_group("toggle_pin"@));
}

} // verus!
