use vstd::prelude::*;

verus! {

/// Features that are still being validated and can be switched on per installation.
#[derive(Clone, Copy, Debug, PartialEq, Eq, Structural)]
pub enum FeatureFlag {
    /// Selection mode lets users select several songs to queue, save or remove.
    SelectMode,
    /// The workflow that creates new playlists from the sidebar.
    CreateNewPlaylist,
    /// Switching playback between Spotify Connect devices.
    DeviceSelector,
    /// Fine-tuning of loudness normalisation parameters.
    Normalisation,
    /// Pinning objects to the sidebar.
    PinnedPlaylists,
}

/// The settings key that stores whether `flag` is enabled.
pub open spec fn spec_flag_key(flag: FeatureFlag) -> Seq<char> {
    match flag {
        FeatureFlag::SelectMode => "feature-select-mode"@,
        FeatureFlag::CreateNewPlaylist => "feature-create-new-playlist"@,
        FeatureFlag::DeviceSelector => "feature-device-selector"@,
        FeatureFlag::Normalisation => "feature-normalisation"@,
        FeatureFlag::PinnedPlaylists => "feature-pinned-playlists"@,
    }
}

/// The name of `flag` shown to users.
pub open spec fn spec_flag_title(flag: FeatureFlag) -> Seq<char> {
    match flag {
        FeatureFlag::SelectMode => "Select Mode"@,
        FeatureFlag::CreateNewPlaylist => "Create New Playlist"@,
        FeatureFlag::DeviceSelector => "Device Selector"@,
        FeatureFlag::Normalisation => "Audio Normalisation"@,
        FeatureFlag::PinnedPlaylists => "Pinned Playlists"@,
    }
}

/// The explanation of `flag` shown to users.
pub open spec fn spec_flag_description(flag: FeatureFlag) -> Seq<char> {
    match flag {
        FeatureFlag::SelectMode => "Enable selection mode to select multiple tracks for queuing, saving, or removing."@,
        FeatureFlag::CreateNewPlaylist => "Enable the New Playlist button in the sidebar."@,
        FeatureFlag::DeviceSelector => "Enable the device selector in the Now Playing headerbar."@,
        FeatureFlag::Normalisation => "Show audio normalisation settings for fine-tuning loudness between tracks."@,
        FeatureFlag::PinnedPlaylists => "Enable pinning objects to the sidebar."@,
    }
}

/// Every flag, in declaration order.
pub open spec fn spec_all_flags() -> Seq<FeatureFlag> {
    seq![
        FeatureFlag::SelectMode,
        FeatureFlag::CreateNewPlaylist,
        FeatureFlag::DeviceSelector,
        FeatureFlag::Normalisation,
        FeatureFlag::PinnedPlaylists,
    ]
}

impl FeatureFlag {
    /// The settings key that stores whether this flag is enabled.
    pub fn key(&self) -> (key: &'static str)
        ensures
            key@ == spec_flag_key(*self),
    {
        match self {
            FeatureFlag::SelectMode => "feature-select-mode",
            FeatureFlag::CreateNewPlaylist => "feature-create-new-playlist",
            FeatureFlag::DeviceSelector => "feature-device-selector",
            FeatureFlag::Normalisation => "feature-normalisation",
            FeatureFlag::PinnedPlaylists => "feature-pinned-playlists",
        }
    }

    /// Every flag, in declaration order.
    pub fn all() -> (flags: Vec<FeatureFlag>)
        ensures
            flags@ == spec_all_flags(),
    {
        let flags = vec![
            FeatureFlag::SelectMode,
            FeatureFlag::CreateNewPlaylist,
            FeatureFlag::DeviceSelector,
            FeatureFlag::Normalisation,
            FeatureFlag::PinnedPlaylists,
        ];
        assert(flags@ =~= spec_all_flags());
        flags
    }

    /// The name of this flag shown to users.
    pub fn title(&self) -> (title: &'static str)
        ensures
            title@ == spec_flag_title(*self),
    {
        match self {
            FeatureFlag::SelectMode => "Select Mode",
            FeatureFlag::CreateNewPlaylist => "Create New Playlist",
            FeatureFlag::DeviceSelector => "Device Selector",
            FeatureFlag::Normalisation => "Audio Normalisation",
            FeatureFlag::PinnedPlaylists => "Pinned Playlists",
        }
    }

    /// The explanation of this flag shown to users.
    pub fn description(&self) -> (description: &'static str)
        ensures
            description@ == spec_flag_description(*self),
    {
        match self {
            FeatureFlag::SelectMode => {
                "Enable selection mode to select multiple tracks for queuing, saving, or removing."
            },
            FeatureFlag::CreateNewPlaylist => "Enable the New Playlist button in the sidebar.",
            FeatureFlag::DeviceSelector => {
                "Enable the device selector in the Now Playing headerbar."
            },
            FeatureFlag::Normalisation => {
                "Show audio normalisation settings for fine-tuning loudness between tracks."
            },
            FeatureFlag::PinnedPlaylists => "Enable pinning objects to the sidebar.",
        }
    }
}

/// Every flag is listed once in `all`, and no two flags share a settings key.
pub proof fn lemma_flags_distinct(a: FeatureFlag, b: FeatureFlag)
    ensures
        spec_all_flags().contains(a),
        a != b ==> spec_flag_key(a) != spec_flag_key(b),
        spec_all_flags().no_duplicates(),
{
    reveal_strlit("feature-select-mode");
    reveal_strlit("feature-create-new-playlist");
    reveal_strlit("feature-device-selector");
    reveal_strlit("feature-normalisation");
    reveal_strlit("feature-pinned-playlists");
    let all = spec_all_flags();
    match a {
        FeatureFlag::SelectMode => assert(all[0] == a),
        FeatureFlag::CreateNewPlaylist => assert(all[1] == a),
        FeatureFlag::DeviceSelector => assert(all[2] == a),
        FeatureFlag::Normalisation => assert(all[3] == a),
        FeatureFlag::PinnedPlaylists => assert(all[4] == a),
    }
    if a != b {
        assert(spec_flag_key(a)[8] != spec_flag_key(b)[8] || spec_flag_key(a).len() != spec_flag_key(
            b,
        ).len());
    }
}

/// Each flag's settings key names that flag, under the common prefix
/// "feature-", and each flag shows its own title.
pub proof fn lemma_flag_keys_name_flags(flag: FeatureFlag)
    ensures
        spec_flag_key(FeatureFlag::SelectMode) == "feature-select-mode"@,
        spec_flag_key(FeatureFlag::CreateNewPlaylist) == "feature-create-new-playlist"@,
        spec_flag_key(FeatureFlag::DeviceSelector) == "feature-device-selector"@,
        spec_flag_key(FeatureFlag::Normalisation) == "feature-normalisation"@,
        spec_flag_key(FeatureFlag::PinnedPlaylists) == "feature-pinned-playlists"@,
        spec_flag_key(flag).subrange(0, 8) == "feature-"@,
        spec_flag_title(FeatureFlag::SelectMode) == "Select Mode"@,
        spec_flag_title(FeatureFlag::CreateNewPlaylist) == "Create New Playlist"@,
        spec_flag_title(FeatureFlag::DeviceSelector) == "Device Selector"@,
        spec_flag_title(FeatureFlag::Normalisation) == "Audio Normalisation"@,
        spec_flag_title(FeatureFlag::PinnedPlaylists) == "Pinned Playlists"@,
{
    reveal_strlit("feature-select-mode");
    reveal_strlit("feature-create-new-playlist");
    reveal_strlit("feature-device-selector");
    reveal_strlit("feature-normalisation");
    reveal_strlit("feature-pinned-playlists");
    reveal_strlit("feature-");
    assert(spec_flag_key(flag).subrange(0, 8) =~= "feature-"@);
}

} // verus!
