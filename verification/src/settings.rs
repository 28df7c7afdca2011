//! How the application's stored settings read and write as values.
//!
//! Settings are stored as integers (enum codes), booleans and strings; this
//! module decodes what was stored and encodes what will be stored.
use vstd::prelude::*;

verus! {

/// The id of the application's settings schema.
pub const SETTINGS: &'static str = "dev.diegovsky.Riff";

/// The settings key that holds the per-user map of pinned objects.
pub const PINNED_OBJECTS_KEY: &'static str = "pinned-objects-by-user";

/// What closing the main window does.
#[derive(Clone, Copy, Debug, PartialEq, Eq, Structural)]
pub enum CloseWindowBehavior {
    Ask,
    MinimizeToBackground,
    StopAndQuit,
}

impl Default for CloseWindowBehavior {
    fn default() -> (behavior: Self)
        ensures
            behavior == CloseWindowBehavior::Ask,
    {
        CloseWindowBehavior::Ask
    }
}

impl CloseWindowBehavior {
    /// Decodes the stored enum code; an unknown code means asking.
    pub fn from_gsettings_enum(value: i32) -> (behavior: Self)
        ensures
            behavior == (if value == 1 {
                CloseWindowBehavior::MinimizeToBackground
            } else if value == 2 {
                CloseWindowBehavior::StopAndQuit
            } else {
                CloseWindowBehavior::Ask
            }),
    {
        match value {
            1 => CloseWindowBehavior::MinimizeToBackground,
            2 => CloseWindowBehavior::StopAndQuit,
            _ => CloseWindowBehavior::Ask,
        }
    }
}

/// The size and state of the main window.
#[derive(Clone, Copy, Debug, PartialEq, Eq, Structural)]
pub struct WindowGeometry {
    pub width: i32,
    pub height: i32,
    pub is_maximized: bool,
}

impl Default for WindowGeometry {
    fn default() -> (geometry: Self)
        ensures
            geometry == (WindowGeometry { width: 0, height: 0, is_maximized: false }),
    {
        WindowGeometry { width: 0, height: 0, is_maximized: false }
    }
}

/// The application's colour scheme preference.
#[derive(Clone, Copy, Debug, PartialEq, Eq, Structural)]
pub enum ThemePreference {
    ForceLight,
    ForceDark,
    Default,
    PreferDark,
}

/// The stored theme code as a preference, where the code is known.
pub open spec fn spec_theme(code: i32) -> Option<ThemePreference> {
    if code == 0 {
        Some(ThemePreference::ForceLight)
    } else if code == 1 {
        Some(ThemePreference::ForceDark)
    } else if code == 2 {
        Some(ThemePreference::Default)
    } else {
        None
    }
}

/// Decodes the stored theme code; `None` for an unknown code.
pub fn theme_from_gsettings_enum(code: i32) -> (theme: Option<ThemePreference>)
    ensures
        theme == spec_theme(code),
{
    match code {
        0 => Some(ThemePreference::ForceLight),
        1 => Some(ThemePreference::ForceDark),
        2 => Some(ThemePreference::Default),
        _ => None,
    }
}

/// The theme used when no settings could be read.
pub fn default_theme() -> (theme: ThemePreference)
    ensures
        theme == ThemePreference::PreferDark,
{
    ThemePreference::PreferDark
}

/// Streaming quality.
#[derive(Clone, Copy, Debug, PartialEq, Eq, Structural)]
pub enum Bitrate {
    Bitrate96,
    Bitrate160,
    Bitrate320,
}

/// Where audio is played.
#[derive(Clone, Debug, PartialEq, Eq)]
pub enum AudioBackend {
    PulseAudio,
    Alsa(String),
}

/// What is repeated when the queue runs out.
#[derive(Clone, Copy, Debug, PartialEq, Eq, Structural)]
pub enum RepeatMode {
    Track,
    Context,
    Off,
}

/// How the volume slider maps to loudness.
#[derive(Clone, Copy, Debug, PartialEq, Eq, Structural)]
pub enum VolumeCurveType {
    Log,
    Linear,
    Cubic,
}

/// What loudness normalisation is measured over.
#[derive(Clone, Copy, Debug, PartialEq, Eq, Structural)]
pub enum NormalisationType {
    Auto,
    Track,
    Album,
}

/// How loudness normalisation is applied.
#[derive(Clone, Copy, Debug, PartialEq, Eq, Structural)]
pub enum NormalisationMethod {
    Dynamic,
    Basic,
}

/// The sample format of the audio output.
#[derive(Clone, Copy, Debug, PartialEq, Eq, Structural)]
#[allow(non_camel_case_types)]
pub enum AudioFormat {
    S16,
    S24,
    S24_3,
    S32,
    F32,
    F64,
}

pub open spec fn spec_bitrate(code: i32) -> Option<Bitrate> {
    if code == 0 {
        Some(Bitrate::Bitrate96)
    } else if code == 1 {
        Some(Bitrate::Bitrate160)
    } else if code == 2 {
        Some(Bitrate::Bitrate320)
    } else {
        None
    }
}

/// Decodes the stored bitrate code; `None` for an unknown code.
pub fn bitrate_from_gsettings_enum(code: i32) -> (bitrate: Option<Bitrate>)
    ensures
        bitrate == spec_bitrate(code),
{
    match code {
        0 => Some(Bitrate::Bitrate96),
        1 => Some(Bitrate::Bitrate160),
        2 => Some(Bitrate::Bitrate320),
        _ => None,
    }
}

/// Decodes the stored audio backend code; the ALSA backend plays on
/// `alsa_device`. `None` for an unknown code.
pub fn audio_backend_from_gsettings(code: i32, alsa_device: &str) -> (backend: Option<AudioBackend>)
    ensures
        backend is Some <==> (code == 0 || code == 1),
        code == 0 ==> backend == Some(AudioBackend::PulseAudio),
        code == 1 ==> (backend matches Some(AudioBackend::Alsa(device)) && device@ == alsa_device@),
{
    match code {
        0 => Some(AudioBackend::PulseAudio),
        1 => Some(AudioBackend::Alsa(alsa_device.to_owned())),
        _ => None,
    }
}

/// The access point port to use: stored 0 (or anything out of range) means any port.
pub open spec fn spec_ap_port(stored: u32) -> Option<u16> {
    if 1 <= stored <= 65535 {
        Some(stored as u16)
    } else {
        None
    }
}

/// Decodes the stored access point port.
pub fn ap_port_from_gsettings(stored: u32) -> (port: Option<u16>)
    ensures
        port == spec_ap_port(stored),
{
    if 1 <= stored && stored <= 65535 {
        Some(stored as u16)
    } else {
        None
    }
}

/// The stored string for a repeat mode.
pub open spec fn spec_repeat_key(mode: RepeatMode) -> Seq<char> {
    match mode {
        RepeatMode::Track => "song"@,
        RepeatMode::Context => "playlist"@,
        RepeatMode::Off => "none"@,
    }
}

/// The repeat mode that a stored string stands for; anything unknown means off.
pub open spec fn spec_repeat_mode(stored: Seq<char>) -> RepeatMode {
    if stored == "song"@ {
        RepeatMode::Track
    } else if stored == "playlist"@ {
        RepeatMode::Context
    } else {
        RepeatMode::Off
    }
}

/// The string stored for a repeat mode.
pub fn repeat_mode_to_gsettings(mode: RepeatMode) -> (stored: &'static str)
    ensures
        stored@ == spec_repeat_key(mode),
{
    match mode {
        RepeatMode::Track => "song",
        RepeatMode::Context => "playlist",
        RepeatMode::Off => "none",
    }
}

/// Whether `a` and `b` hold the same text.
pub(crate) fn same_text(a: &str, b: &str) -> (same: bool)
    ensures
        same == (a@ == b@),
{
    a.to_owned() == b.to_owned()
}

/// Decodes a stored repeat mode.
pub fn repeat_mode_from_gsettings(stored: &str) -> (mode: RepeatMode)
    ensures
        mode == spec_repeat_mode(stored@),
{
    if same_text(stored, "song") {
        RepeatMode::Track
    } else if same_text(stored, "playlist") {
        RepeatMode::Context
    } else {
        RepeatMode::Off
    }
}

/// Repeat modes survive being stored and read back.
pub proof fn lemma_repeat_mode_round_trip(mode: RepeatMode)
    ensures
        spec_repeat_mode(spec_repeat_key(mode)) == mode,
{
    reveal_strlit("song");
    reveal_strlit("playlist");
    reveal_strlit("none");
    assert("song"@ != "playlist"@) by {
        assert("song"@.len() != "playlist"@.len());
    }
    assert("none"@ != "song"@) by {
        assert("none"@[0] != "song"@[0]);
    }
    assert("none"@ != "playlist"@) by {
        assert("none"@.len() != "playlist"@.len());
    }
}

pub open spec fn spec_volume_curve(code: i32) -> VolumeCurveType {
    if code == 1 {
        VolumeCurveType::Linear
    } else if code == 2 {
        VolumeCurveType::Cubic
    } else {
        VolumeCurveType::Log
    }
}

/// Decodes the stored volume curve code; an unknown code means logarithmic.
pub fn volume_curve_from_gsettings_enum(code: i32) -> (curve: VolumeCurveType)
    ensures
        curve == spec_volume_curve(code),
{
    match code {
        0 => VolumeCurveType::Log,
        1 => VolumeCurveType::Linear,
        2 => VolumeCurveType::Cubic,
        _ => VolumeCurveType::Log,
    }
}

pub open spec fn spec_normalisation_type(code: i32) -> NormalisationType {
    if code == 1 {
        NormalisationType::Track
    } else if code == 2 {
        NormalisationType::Album
    } else {
        NormalisationType::Auto
    }
}

/// Decodes the stored normalisation type code; an unknown code means automatic.
pub fn normalisation_type_from_gsettings_enum(code: i32) -> (kind: NormalisationType)
    ensures
        kind == spec_normalisation_type(code),
{
    match code {
        0 => NormalisationType::Auto,
        1 => NormalisationType::Track,
        2 => NormalisationType::Album,
        _ => NormalisationType::Auto,
    }
}

pub open spec fn spec_normalisation_method(code: i32) -> NormalisationMethod {
    if code == 1 {
        NormalisationMethod::Basic
    } else {
        NormalisationMethod::Dynamic
    }
}

/// Decodes the stored normalisation method code; an unknown code means dynamic.
pub fn normalisation_method_from_gsettings_enum(code: i32) -> (method: NormalisationMethod)
    ensures
        method == spec_normalisation_method(code),
{
    match code {
        0 => NormalisationMethod::Dynamic,
        1 => NormalisationMethod::Basic,
        _ => NormalisationMethod::Dynamic,
    }
}

pub open spec fn spec_audio_format(code: i32) -> AudioFormat {
    if code == 1 {
        AudioFormat::S24
    } else if code == 2 {
        AudioFormat::S24_3
    } else if code == 3 {
        AudioFormat::S32
    } else if code == 4 {
        AudioFormat::F32
    } else if code == 5 {
        AudioFormat::F64
    } else {
        AudioFormat::S16
    }
}

/// Decodes the stored audio format code; an unknown code means 16-bit samples.
pub fn audio_format_from_gsettings_enum(code: i32) -> (format: AudioFormat)
    ensures
        format == spec_audio_format(code),
{
    match code {
        0 => AudioFormat::S16,
        1 => AudioFormat::S24,
        2 => AudioFormat::S24_3,
        3 => AudioFormat::S32,
        4 => AudioFormat::F32,
        5 => AudioFormat::F64,
        _ => AudioFormat::S16,
    }
}

/// The player settings as stored, apart from the real-valued ones.
pub struct StoredPlayerSettings {
    pub bitrate: i32,
    pub audio_backend: i32,
    pub alsa_device: String,
    pub gapless: bool,
    pub ap_port: u32,
    pub shuffle: bool,
    pub skip_explicit: bool,
    pub repeat: String,
    pub volume_curve: i32,
    pub normalisation: bool,
    pub normalisation_type: i32,
    pub normalisation_method: i32,
    pub audio_format: i32,
    pub mono_audio: bool,
}

/// The player settings in use, apart from the real-valued ones.
pub struct PlayerOptions {
    pub bitrate: Bitrate,
    pub backend: AudioBackend,
    pub gapless: bool,
    pub ap_port: Option<u16>,
    pub shuffle: bool,
    pub skip_explicit: bool,
    pub repeat: RepeatMode,
    pub volume_curve: VolumeCurveType,
    pub normalisation: bool,
    pub normalisation_type: NormalisationType,
    pub normalisation_method: NormalisationMethod,
    pub audio_format: AudioFormat,
    pub mono_audio: bool,
}

/// Decodes the stored player settings. Returns `None` when the bitrate or the
/// audio backend code is unknown; every other unknown code falls back to its default.
pub fn decode_player_settings(stored: &StoredPlayerSettings) -> (options: Option<PlayerOptions>)
    ensures
        options is Some <==> (spec_bitrate(stored.bitrate) is Some && (stored.audio_backend == 0
            || stored.audio_backend == 1)),
        options matches Some(o) ==> {
            &&& Some(o.bitrate) == spec_bitrate(stored.bitrate)
            &&& (o.backend is PulseAudio <==> stored.audio_backend == 0)
            &&& (o.backend matches AudioBackend::Alsa(device) ==> device@ == stored.alsa_device@)
            &&& o.gapless == stored.gapless
            &&& o.ap_port == spec_ap_port(stored.ap_port)
            &&& o.shuffle == stored.shuffle
            &&& o.skip_explicit == stored.skip_explicit
            &&& o.repeat == spec_repeat_mode(stored.repeat@)
            &&& o.volume_curve == spec_volume_curve(stored.volume_curve)
            &&& o.normalisation == stored.normalisation
            &&& o.normalisation_type == spec_normalisation_type(stored.normalisation_type)
            &&& o.normalisation_method == spec_normalisation_method(stored.normalisation_method)
            &&& o.audio_format == spec_audio_format(stored.audio_format)
            &&& o.mono_audio == stored.mono_audio
        },
{
    let bitrate = match bitrate_from_gsettings_enum(stored.bitrate) {
        Some(bitrate) => bitrate,
        None => return None,
    };
    let backend = match audio_backend_from_gsettings(stored.audio_backend, stored.alsa_device.as_str()) {
        Some(backend) => backend,
        None => return None,
    };
    Some(
        PlayerOptions {
            bitrate,
            backend,
            gapless: stored.gapless,
            ap_port: ap_port_from_gsettings(stored.ap_port),
            shuffle: stored.shuffle,
            skip_explicit: stored.skip_explicit,
            repeat: repeat_mode_from_gsettings(stored.repeat.as_str()),
            volume_curve: volume_curve_from_gsettings_enum(stored.volume_curve),
            normalisation: stored.normalisation,
            normalisation_type: normalisation_type_from_gsettings_enum(stored.normalisation_type),
            normalisation_method: normalisation_method_from_gsettings_enum(
                stored.normalisation_method,
            ),
            audio_format: audio_format_from_gsettings_enum(stored.audio_format),
            mono_audio: stored.mono_audio,
        },
    )
}

/// The known volume curve codes give three different curves: 0 (and every
/// unknown code) gives the logarithmic one, 1 the linear one, 2 the cubic one.
pub proof fn lemma_volume_curve_codes(code: i32)
    ensures
        (spec_volume_curve(code) == VolumeCurveType::Linear) <==> code == 1,
        (spec_volume_curve(code) == VolumeCurveType::Cubic) <==> code == 2,
        (spec_volume_curve(code) == VolumeCurveType::Log) <==> (code != 1 && code != 2),
{
}

/// Normalisation type codes: 1 is per track, 2 per album, 0 and every unknown code automatic.
pub proof fn lemma_normalisation_type_codes(code: i32)
    ensures
        (spec_normalisation_type(code) == NormalisationType::Track) <==> code == 1,
        (spec_normalisation_type(code) == NormalisationType::Album) <==> code == 2,
        (spec_normalisation_type(code) == NormalisationType::Auto) <==> (code != 1 && code != 2),
{
}

/// Normalisation method codes: 1 is basic, 0 and every unknown code dynamic.
pub proof fn lemma_normalisation_method_codes(code: i32)
    ensures
        (spec_normalisation_method(code) == NormalisationMethod::Basic) <==> code == 1,
        (spec_normalisation_method(code) == NormalisationMethod::Dynamic) <==> code != 1,
{
}

/// Audio format codes: 1 to 5 give S24, S24_3, S32, F32, F64; 0 and every
/// unknown code give S16.
pub proof fn lemma_audio_format_codes(code: i32)
    ensures
        (spec_audio_format(code) == AudioFormat::S24) <==> code == 1,
        (spec_audio_format(code) == AudioFormat::S24_3) <==> code == 2,
        (spec_audio_format(code) == AudioFormat::S32) <==> code == 3,
        (spec_audio_format(code) == AudioFormat::F32) <==> code == 4,
        (spec_audio_format(code) == AudioFormat::F64) <==> code == 5,
        (spec_audio_format(code) == AudioFormat::S16) <==> !(1 <= code <= 5),
{
}

/// Bitrate and theme codes: only 0, 1 and 2 are known, in increasing bitrate
/// and in the order light, dark, system default.
pub proof fn lemma_bitrate_and_theme_codes(code: i32)
    ensures
        spec_bitrate(code) is Some <==> 0 <= code <= 2,
        (spec_bitrate(code) == Some(Bitrate::Bitrate96)) <==> code == 0,
        (spec_bitrate(code) == Some(Bitrate::Bitrate160)) <==> code == 1,
        (spec_bitrate(code) == Some(Bitrate::Bitrate320)) <==> code == 2,
        spec_theme(code) is Some <==> 0 <= code <= 2,
        (spec_theme(code) == Some(ThemePreference::ForceLight)) <==> code == 0,
        (spec_theme(code) == Some(ThemePreference::ForceDark)) <==> code == 1,
        (spec_theme(code) == Some(ThemePreference::Default)) <==> code == 2,
{
}

/// The access point port is the stored number where it is a port (1 to
/// 65535); anything else means any port.
pub proof fn lemma_ap_port(stored: u32)
    ensures
        spec_ap_port(stored) is Some <==> 1 <= stored <= 65535,
        spec_ap_port(stored) matches Some(port) ==> port as u32 == stored,
{
}

/// Repeat modes are stored as "song" (repeat the track), "playlist" (repeat
/// the context) and "none".
pub proof fn lemma_repeat_keys(mode: RepeatMode)
    ensures
        spec_repeat_key(RepeatMode::Track) == "song"@,
        spec_repeat_key(RepeatMode::Context) == "playlist"@,
        spec_repeat_key(RepeatMode::Off) == "none"@,
        spec_repeat_mode("song"@) == RepeatMode::Track,
        spec_repeat_mode("playlist"@) == RepeatMode::Context,
        spec_repeat_mode("none"@) == RepeatMode::Off,
{
    lemma_repeat_mode_round_trip(RepeatMode::Track);
    lemma_repeat_mode_round_trip(RepeatMode::Context);
    lemma_repeat_mode_round_trip(RepeatMode::Off);
}

} // verus!
