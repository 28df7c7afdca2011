//! Which application state changes are recorded in the settings, and how.
use vstd::prelude::*;

use crate::settings::{repeat_mode_to_gsettings, same_text, spec_repeat_key, RepeatMode};

verus! {

/// How browse pages lay out their cards.
#[derive(Clone, Copy, Debug, PartialEq, Eq, Structural)]
pub enum CardLayout {
    Vertical,
    ImageOnly,
    Horizontal,
}

/// How large browse page cards are.
#[derive(Clone, Copy, Debug, PartialEq, Eq, Structural)]
pub enum CardSize {
    Small,
    Medium,
    Large,
}

/// The string stored for a card layout.
pub open spec fn spec_card_layout_key(layout: CardLayout) -> Seq<char> {
    match layout {
        CardLayout::Vertical => "vertical"@,
        CardLayout::ImageOnly => "image-only"@,
        CardLayout::Horizontal => "horizontal"@,
    }
}

/// The card layout a stored string stands for; anything unknown means vertical.
pub open spec fn spec_card_layout(stored: Seq<char>) -> CardLayout {
    if stored == "image-only"@ {
        CardLayout::ImageOnly
    } else if stored == "horizontal"@ {
        CardLayout::Horizontal
    } else {
        CardLayout::Vertical
    }
}

/// The string stored for a card size.
pub open spec fn spec_card_size_key(size: CardSize) -> Seq<char> {
    match size {
        CardSize::Small => "small"@,
        CardSize::Medium => "medium"@,
        CardSize::Large => "large"@,
    }
}

/// The card size a stored string stands for; anything unknown means large.
pub open spec fn spec_card_size(stored: Seq<char>) -> CardSize {
    if stored == "small"@ {
        CardSize::Small
    } else if stored == "medium"@ {
        CardSize::Medium
    } else {
        CardSize::Large
    }
}

impl CardLayout {
    /// The string stored for this layout.
    pub fn to_gsettings_str(self) -> (stored: &'static str)
        ensures
            stored@ == spec_card_layout_key(self),
    {
        match self {
            CardLayout::Vertical => "vertical",
            CardLayout::ImageOnly => "image-only",
            CardLayout::Horizontal => "horizontal",
        }
    }

    /// Decodes a stored card layout.
    pub fn from_gsettings_str(stored: &str) -> (layout: CardLayout)
        ensures
            layout == spec_card_layout(stored@),
    {
        if same_text(stored, "image-only") {
            CardLayout::ImageOnly
        } else if same_text(stored, "horizontal") {
            CardLayout::Horizontal
        } else {
            CardLayout::Vertical
        }
    }
}

impl CardSize {
    /// The string stored for this size.
    pub fn to_gsettings_str(self) -> (stored: &'static str)
        ensures
            stored@ == spec_card_size_key(self),
    {
        match self {
            CardSize::Small => "small",
            CardSize::Medium => "medium",
            CardSize::Large => "large",
        }
    }

    /// Decodes a stored card size.
    pub fn from_gsettings_str(stored: &str) -> (size: CardSize)
        ensures
            size == spec_card_size(stored@),
    {
        if same_text(stored, "small") {
            CardSize::Small
        } else if same_text(stored, "medium") {
            CardSize::Medium
        } else {
            CardSize::Large
        }
    }
}

/// A card layout that is saved is loaded back unchanged.
pub proof fn lemma_card_layout_round_trip(layout: CardLayout)
    ensures
        spec_card_layout(spec_card_layout_key(layout)) == layout,
{
    reveal_strlit("vertical");
    reveal_strlit("image-only");
    reveal_strlit("horizontal");
    assert("vertical"@ != "image-only"@) by {
        assert("vertical"@[0] != "image-only"@[0]);
    }
    assert("vertical"@ != "horizontal"@) by {
        assert("vertical"@[0] != "horizontal"@[0]);
    }
    assert("horizontal"@ != "image-only"@) by {
        assert("horizontal"@[0] != "image-only"@[0]);
    }
}

/// A card size that is saved is loaded back unchanged.
pub proof fn lemma_card_size_round_trip(size: CardSize)
    ensures
        spec_card_size(spec_card_size_key(size)) == size,
{
    reveal_strlit("small");
    reveal_strlit("medium");
    reveal_strlit("large");
    assert("small"@ != "medium"@) by {
        assert("small"@[0] != "medium"@[0]);
    }
    assert("large"@ != "medium"@) by {
        assert("large"@[0] != "medium"@[0]);
    }
    assert("large"@ != "small"@) by {
        assert("large"@[0] != "small"@[0]);
    }
}

/// The settings key that stores the sort order of the page `page`.
pub open spec fn spec_sort_order_key(page: Seq<char>) -> Seq<char> {
    "sort-"@ + page
}

/// The settings key that stores the sort order of the page `page`.
pub fn sort_order_key(page: &str) -> (key: String)
    ensures
        key@ == spec_sort_order_key(page@),
{
    let mut key = "sort-".to_owned();
    key.append(page);
    key
}

/// An application state change whose new value is recorded in the settings
/// (apart from the volume, which is a real number).
#[derive(Clone, Copy, Debug, PartialEq, Eq, Structural)]
pub enum TrackedChange {
    ShuffleChanged(bool),
    RepeatModeChanged(RepeatMode),
    CardLayoutChanged(CardLayout),
    CardSizeChanged(CardSize),
}

/// A value to store under a settings key.
#[derive(Clone, Copy, Debug, PartialEq, Eq)]
pub enum SettingValue {
    Boolean(bool),
    Text(&'static str),
}

/// The text of a text value.
pub open spec fn spec_text(value: SettingValue) -> Option<Seq<char>> {
    match value {
        SettingValue::Text(text) => Some(text@),
        SettingValue::Boolean(_) => None,
    }
}

/// A write of `value` under the settings key `key`.
#[derive(Clone, Copy, Debug, PartialEq, Eq)]
pub struct SettingWrite {
    pub key: &'static str,
    pub value: SettingValue,
}

/// The settings write that records `change`.
pub fn setting_write_for(change: TrackedChange) -> (write: SettingWrite)
    ensures
        match change {
            TrackedChange::ShuffleChanged(shuffle) => write.key@ == "shuffle"@ && write.value
                == SettingValue::Boolean(shuffle),
            TrackedChange::RepeatModeChanged(mode) => write.key@ == "repeat"@ && spec_text(
                write.value,
            ) == Some(spec_repeat_key(mode)),
            TrackedChange::CardLayoutChanged(layout) => write.key@ == "card-layout"@ && spec_text(
                write.value,
            ) == Some(spec_card_layout_key(layout)),
            TrackedChange::CardSizeChanged(size) => write.key@ == "card-size"@ && spec_text(
                write.value,
            ) == Some(spec_card_size_key(size)),
        },
{
    match change {
        TrackedChange::ShuffleChanged(shuffle) => SettingWrite {
            key: "shuffle",
            value: SettingValue::Boolean(shuffle),
        },
        TrackedChange::RepeatModeChanged(mode) => SettingWrite {
            key: "repeat",
            value: SettingValue::Text(repeat_mode_to_gsettings(mode)),
        },
        TrackedChange::CardLayoutChanged(layout) => SettingWrite {
            key: "card-layout",
            value: SettingValue::Text(layout.to_gsettings_str()),
        },
        TrackedChange::CardSizeChanged(size) => SettingWrite {
            key: "card-size",
            value: SettingValue::Text(size.to_gsettings_str()),
        },
    }
}

/// Card layouts and sizes are stored under their own names, and each stored
/// name reads back as the layout or size it names.
pub proof fn lemma_card_keys(layout: CardLayout, size: CardSize)
    ensures
        spec_card_layout_key(CardLayout::Vertical) == "vertical"@,
        spec_card_layout_key(CardLayout::ImageOnly) == "image-only"@,
        spec_card_layout_key(CardLayout::Horizontal) == "horizontal"@,
        spec_card_size_key(CardSize::Small) == "small"@,
        spec_card_size_key(CardSize::Medium) == "medium"@,
        spec_card_size_key(CardSize::Large) == "large"@,
        spec_card_layout(spec_card_layout_key(layout)) == layout,
        spec_card_size(spec_card_size_key(size)) == size,
{
    lemma_card_layout_round_trip(layout);
    lemma_card_size_round_trip(size);
}

} // verus!
