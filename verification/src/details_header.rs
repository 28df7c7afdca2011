//! What the header of a details page shows: artwork styling, which text
//! rows are visible, the look of the action buttons and the row of artist links.
use vstd::prelude::*;

verus! {

/// The shape of the artwork in the header: square for albums and playlists,
/// circular for artist avatars.
#[derive(Clone, Copy, Debug, PartialEq, Eq, Structural)]
pub enum HeaderImageShape {
    Square,
    Circle,
}

/// The style classes of the artwork and of the box around it.
pub struct ImageClasses {
    pub image: Vec<&'static str>,
    pub image_box: Vec<&'static str>,
}

/// The style classes for artwork of the given shape: the box is always a
/// placeholder card; circular artwork and its box are clipped to a circle.
pub fn image_classes(shape: HeaderImageShape) -> (classes: ImageClasses)
    ensures
        classes.image@.len() == (if shape == HeaderImageShape::Circle { 1int } else { 0 }),
        classes.image_box@.len() == (if shape == HeaderImageShape::Circle { 3int } else { 2 }),
        classes.image_box@[0]@ == "details-header__image-placeholder"@,
        classes.image_box@[1]@ == "card"@,
        shape == HeaderImageShape::Circle ==> classes.image@[0]@ == "details-header__image--circular"@
            && classes.image_box@[2]@ == "details-header__image--circular"@,
{
    let mut image: Vec<&'static str> = Vec::new();
    let mut image_box: Vec<&'static str> = Vec::new();
    image_box.push("details-header__image-placeholder");
    image_box.push("card");
    if shape == HeaderImageShape::Circle {
        image.push("details-header__image--circular");
        image_box.push("details-header__image--circular");
    }
    ImageClasses { image, image_box }
}

/// Which text rows of the header are visible. Empty rows take no space, and
/// the plain subtitle and the row of artist links are never shown together.
#[derive(Clone, Copy, Debug, PartialEq, Eq, Structural)]
pub struct HeaderRows {
    pub caption: bool,
    pub subtitle: bool,
    pub links: bool,
}

impl HeaderRows {
    /// Sets the caption: it is shown only when not empty.
    pub fn set_caption(&mut self, caption: &str)
        ensures
            *final(self) == (HeaderRows { caption: caption@.len() != 0, ..*old(self) }),
    {
        self.caption = !caption.is_empty();
    }

    /// Shows or hides the caption.
    pub fn set_caption_visible(&mut self, visible: bool)
        ensures
            *final(self) == (HeaderRows { caption: visible, ..*old(self) }),
    {
        self.caption = visible;
    }

    /// Sets the plain subtitle: it is shown only when not empty, and it
    /// replaces the row of artist links.
    pub fn set_subtitle(&mut self, subtitle: &str)
        ensures
            *final(self) == (HeaderRows {
                subtitle: subtitle@.len() != 0,
                links: false,
                ..*old(self)
            }),
    {
        self.subtitle = !subtitle.is_empty();
        self.links = false;
    }

    /// Sets the row of artist links, `artist_count` of them: with none the
    /// row is hidden, otherwise it replaces the plain subtitle.
    pub fn set_subtitle_links(&mut self, artist_count: usize)
        ensures
            artist_count == 0 ==> *final(self) == (HeaderRows { links: false, ..*old(self) }),
            artist_count > 0 ==> *final(self) == (HeaderRows {
                links: true,
                subtitle: false,
                ..*old(self)
            }),
    {
        if artist_count == 0 {
            self.links = false;
        } else {
            self.links = true;
            self.subtitle = false;
        }
    }
}

/// The plain subtitle and the row of artist links are never both shown:
/// every change of the text rows keeps them apart.
pub proof fn lemma_subtitle_and_links_exclusive(rows: HeaderRows, text: Seq<char>, artist_count: nat)
    requires
        !(rows.subtitle && rows.links),
    ensures
        ({
            let after = HeaderRows { subtitle: text.len() != 0, links: false, ..rows };
            !(after.subtitle && after.links)
        }),
        ({
            let after = if artist_count == 0 {
                HeaderRows { links: false, ..rows }
            } else {
                HeaderRows { links: true, subtitle: false, ..rows }
            };
            !(after.subtitle && after.links)
        }),
        ({
            let after = HeaderRows { caption: text.len() != 0, ..rows };
            !(after.subtitle && after.links)
        }),
{
}

/// The icon name and the (untranslated) tooltip of the play button.
pub fn play_button_look(is_playing: bool) -> (look: (&'static str, &'static str))
    ensures
        is_playing ==> look.0@ == "media-playback-pause-symbolic"@ && look.1@ == "Pause"@,
        !is_playing ==> look.0@ == "media-playback-start-symbolic"@ && look.1@ == "Play"@,
{
    if is_playing {
        ("media-playback-pause-symbolic", "Pause")
    } else {
        ("media-playback-start-symbolic", "Play")
    }
}

/// The icon name of the like button.
pub fn like_icon(is_liked: bool) -> (icon: &'static str)
    ensures
        is_liked ==> icon@ == "starred-symbolic"@,
        !is_liked ==> icon@ == "non-starred-symbolic"@,
{
    if is_liked {
        "starred-symbolic"
    } else {
        "non-starred-symbolic"
    }
}

/// The icon name and the (untranslated) tooltip of the pin button.
pub fn pin_button_look(is_pinned: bool) -> (look: (&'static str, &'static str))
    ensures
        is_pinned ==> look.0@ == "view-pin-symbolic"@ && look.1@ == "Unpin from Sidebar"@,
        !is_pinned ==> look.0@ == "view-pin-outline-symbolic"@ && look.1@ == "Pin to Sidebar"@,
{
    if is_pinned {
        ("view-pin-symbolic", "Unpin from Sidebar")
    } else {
        ("view-pin-outline-symbolic", "Pin to Sidebar")
    }
}

/// One element of the row of artist links.
#[derive(Clone, Debug, PartialEq, Eq)]
pub enum SubtitleItem {
    /// The comma between two links.
    Separator,
    /// A button named after an artist that reports the artist's id when clicked.
    Link { id: String, name: String },
}

/// Whether `item` is the link of the artist `artist` (id, name).
pub open spec fn is_link_to(item: SubtitleItem, artist: (String, String)) -> bool {
    match item {
        SubtitleItem::Link { id, name } => id@ == artist.0@ && name@ == artist.1@,
        SubtitleItem::Separator => false,
    }
}

/// The row of links for `artists` (id, name): one link per artist, in order,
/// with a separator between two neighbours: "Artist 1, Artist 2, Artist 3".
pub fn subtitle_link_items(artists: &Vec<(String, String)>) -> (items: Vec<SubtitleItem>)
    requires
        artists@.len() < usize::MAX / 2,
    ensures
        artists@.len() == 0 ==> items@.len() == 0,
        artists@.len() > 0 ==> items@.len() == 2 * artists@.len() - 1,
        forall|k: int| 0 <= k < artists@.len() ==> is_link_to(#[trigger] items@[2 * k], artists@[k]),
        forall|k: int| 1 <= k < artists@.len() ==> #[trigger] items@[2 * k - 1] is Separator,
{
    let mut items: Vec<SubtitleItem> = Vec::new();
    let n = artists.len();
    let mut i: usize = 0;
    while i < n
        invariant
            n == artists@.len(),
            n < usize::MAX / 2,
            i <= n,
            i == 0 ==> items@.len() == 0,
            i > 0 ==> items@.len() == 2 * i - 1,
            forall|k: int| 0 <= k < i ==> is_link_to(#[trigger] items@[2 * k], artists@[k]),
            forall|k: int| 1 <= k < i ==> #[trigger] items@[2 * k - 1] is Separator,
        decreases n - i,
    {
        if i > 0 {
            items.push(SubtitleItem::Separator);
        }
        let link = SubtitleItem::Link { id: artists[i].0.clone(), name: artists[i].1.clone() };
        items.push(link);
        assert(is_link_to(items@[2 * i as int], artists@[i as int]));
        i = i + 1;
    }
    items
}

/// The size that the header reports for itself, given what its content
/// measured as (minimum, natural, minimum baseline, natural baseline). Its
/// content may shrink to almost nothing so that the layout can switch; so
/// that the header is never squeezed vertically, it reports its natural
/// height as its minimum height too. Widths are reported as measured.
pub fn header_measure(vertical: bool, measured: (i32, i32, i32, i32)) -> (reported: (i32, i32, i32, i32))
    ensures
        vertical ==> reported == (measured.1, measured.1, measured.2, measured.3),
        !vertical ==> reported == measured,
{
    let (minimum, natural, min_baseline, nat_baseline) = measured;
    if vertical {
        return (natural, natural, min_baseline, nat_baseline);
    }
    (minimum, natural, min_baseline, nat_baseline)
}

} // verus!
