//! The application's settings: their types, their defaults, and the small
//! conversions that go with them.

use vstd::prelude::*;
use vstd::string::StringExecFns;
use crate::custom_words::Threshold;
use crate::text::{opt_text, str_eq, texts};

verus! {

/// A keyboard shortcut and what it triggers.
#[derive(Debug, PartialEq, Eq)]
pub struct ShortcutBinding {
    pub id: String,
    pub name: String,
    pub description: String,
    pub default_binding: String,
    pub current_binding: String,
}

/// What a `ShortcutBinding` holds, as mathematical values.
pub struct ShortcutBindingView {
    pub id: Seq<char>,
    pub name: Seq<char>,
    pub description: Seq<char>,
    pub default_binding: Seq<char>,
    pub current_binding: Seq<char>,
}

impl View for ShortcutBinding {
    type V = ShortcutBindingView;

    open spec fn view(&self) -> ShortcutBindingView {
        ShortcutBindingView {
            id: self.id@,
            name: self.name@,
            description: self.description@,
            default_binding: self.default_binding@,
            current_binding: self.current_binding@,
        }
    }
}

impl Clone for ShortcutBinding {
    fn clone(&self) -> (copy: Self)
        ensures
            copy@ == self@,
    {
        ShortcutBinding {
            id: self.id.clone(),
            name: self.name.clone(),
            description: self.description.clone(),
            default_binding: self.default_binding.clone(),
            current_binding: self.current_binding.clone(),
        }
    }
}

/// Where the recording overlay is shown.
#[derive(Debug, Clone, Copy, PartialEq, Eq, Structural)]
pub enum OverlayPosition {
    /// No overlay is shown.
    Hidden,
    Top,
    Bottom,
}

/// How long an idle model stays loaded.
#[derive(Debug, Clone, Copy, PartialEq, Eq, Structural)]
pub enum ModelUnloadTimeout {
    Never,
    Immediately,
    Min2,
    Min5,
    Min10,
    Min15,
    Hour1,
    /// Five seconds, for debugging.
    Sec5,
}

/// The timeout in whole minutes; `None` where the model is never unloaded.
pub open spec fn timeout_minutes(timeout: ModelUnloadTimeout) -> Option<u64> {
    match timeout {
        ModelUnloadTimeout::Never => None,
        ModelUnloadTimeout::Immediately => Some(0),
        ModelUnloadTimeout::Min2 => Some(2),
        ModelUnloadTimeout::Min5 => Some(5),
        ModelUnloadTimeout::Min10 => Some(10),
        ModelUnloadTimeout::Min15 => Some(15),
        ModelUnloadTimeout::Hour1 => Some(60),
        ModelUnloadTimeout::Sec5 => Some(0),
    }
}

/// The timeout in seconds; `None` where the model is never unloaded.
pub open spec fn timeout_seconds(timeout: ModelUnloadTimeout) -> Option<u64> {
    match timeout {
        ModelUnloadTimeout::Never => None,
        ModelUnloadTimeout::Sec5 => Some(5),
        _ => Some((timeout_minutes(timeout)->0 * 60) as u64),
    }
}

impl ModelUnloadTimeout {
    /// The timeout in whole minutes, rounded down.
    pub fn to_minutes(self) -> (minutes: Option<u64>)
        ensures
            minutes == timeout_minutes(self),
    {
        match self {
            ModelUnloadTimeout::Never => None,
            ModelUnloadTimeout::Immediately => Some(0),
            ModelUnloadTimeout::Min2 => Some(2),
            ModelUnloadTimeout::Min5 => Some(5),
            ModelUnloadTimeout::Min10 => Some(10),
            ModelUnloadTimeout::Min15 => Some(15),
            ModelUnloadTimeout::Hour1 => Some(60),
            ModelUnloadTimeout::Sec5 => Some(0),
        }
    }

    /// The timeout in seconds.
    pub fn to_seconds(self) -> (seconds: Option<u64>)
        ensures
            seconds == timeout_seconds(self),
    {
        match self {
            ModelUnloadTimeout::Never => None,
            ModelUnloadTimeout::Immediately => Some(0),
            ModelUnloadTimeout::Sec5 => Some(5),
            _ => match self.to_minutes() {
                Some(minutes) => Some(minutes * 60),
                None => None,
            },
        }
    }
}

impl Default for ModelUnloadTimeout {
    fn default() -> (timeout: Self)
        ensures
            timeout == ModelUnloadTimeout::Never,
    {
        ModelUnloadTimeout::Never
    }
}

/// How corrected text reaches the focused application.
#[derive(Debug, Clone, Copy, PartialEq, Eq, Structural)]
pub enum PasteMethod {
    CtrlV,
    Direct,
}

/// What happens to the clipboard after pasting.
#[derive(Debug, Clone, Copy, PartialEq, Eq, Structural)]
pub enum ClipboardHandling {
    DontModify,
    CopyToClipboard,
}

impl Default for ClipboardHandling {
    fn default() -> (handling: Self)
        ensures
            handling == ClipboardHandling::DontModify,
    {
        ClipboardHandling::DontModify
    }
}

/// The sounds that mark the start and the end of a recording.
#[derive(Debug, Clone, Copy, PartialEq, Eq, Structural)]
pub enum SoundTheme {
    Marimba,
    Pop,
    Custom,
}

/// The name of a theme as its files carry it.
pub open spec fn theme_name(theme: SoundTheme) -> Seq<char> {
    match theme {
        SoundTheme::Marimba => "marimba"@,
        SoundTheme::Pop => "pop"@,
        SoundTheme::Custom => "custom"@,
    }
}

impl SoundTheme {
    /// The name of the theme as its files carry it.
    pub fn as_str(&self) -> (name: &'static str)
        ensures
            name@ == theme_name(*self),
    {
        match self {
            SoundTheme::Marimba => "marimba",
            SoundTheme::Pop => "pop",
            SoundTheme::Custom => "custom",
        }
    }

    /// The resource that is played when a recording starts.
    pub fn to_start_path(&self) -> (path: String)
        ensures
            path@ == "resources/"@ + theme_name(*self) + "_start.wav"@,
    {
        String::from_str("resources/").concat(self.as_str()).concat("_start.wav")
    }

    /// The resource that is played when a recording stops.
    pub fn to_stop_path(&self) -> (path: String)
        ensures
            path@ == "resources/"@ + theme_name(*self) + "_stop.wav"@,
    {
        String::from_str("resources/").concat(self.as_str()).concat("_stop.wav")
    }
}

/// The operating system that the application runs on, as far as the
/// defaults depend on it.
#[derive(Debug, Clone, Copy, PartialEq, Eq, Structural)]
pub enum Platform {
    Windows,
    MacOs,
    Linux,
    Other,
}

/// The paste method that a platform starts with: on Linux the text is typed
/// directly, elsewhere it is pasted.
pub open spec fn platform_paste_method(platform: Platform) -> PasteMethod {
    if platform == Platform::Linux {
        PasteMethod::Direct
    } else {
        PasteMethod::CtrlV
    }
}

/// The overlay position that a platform starts with: none on Linux, the
/// bottom of the screen elsewhere.
pub open spec fn platform_overlay_position(platform: Platform) -> OverlayPosition {
    if platform == Platform::Linux {
        OverlayPosition::Hidden
    } else {
        OverlayPosition::Bottom
    }
}

/// The shortcut that starts a transcription on a platform.
pub open spec fn platform_shortcut(platform: Platform) -> Seq<char> {
    match platform {
        Platform::Windows => "ctrl+space"@,
        Platform::MacOs => "option+space"@,
        Platform::Linux => "ctrl+space"@,
        Platform::Other => "alt+space"@,
    }
}

impl PasteMethod {
    /// The paste method that `platform` starts with.
    pub fn default_for(platform: Platform) -> (method: Self)
        ensures
            method == platform_paste_method(platform),
    {
        match platform {
            Platform::Linux => PasteMethod::Direct,
            _ => PasteMethod::CtrlV,
        }
    }
}

/// No model is selected at first.
pub fn default_model() -> (model: String)
    ensures
        model@.len() == 0,
{
    String::new()
}

pub fn default_always_on_microphone() -> (on: bool)
    ensures
        !on,
{
    false
}

pub fn default_translate_to_english() -> (on: bool)
    ensures
        !on,
{
    false
}

pub fn default_start_hidden() -> (on: bool)
    ensures
        !on,
{
    false
}

pub fn default_autostart_enabled() -> (on: bool)
    ensures
        !on,
{
    false
}

/// The language is detected unless one is chosen.
pub fn default_selected_language() -> (language: String)
    ensures
        language@ == "auto"@,
{
    String::from_str("auto")
}

pub fn default_overlay_position(platform: Platform) -> (position: OverlayPosition)
    ensures
        position == platform_overlay_position(platform),
{
    match platform {
        Platform::Linux => OverlayPosition::Hidden,
        _ => OverlayPosition::Bottom,
    }
}

pub fn default_debug_mode() -> (on: bool)
    ensures
        !on,
{
    false
}

/// A token is replaced where its score lies below 0.18.
pub fn default_word_correction_threshold() -> (threshold: Threshold)
    ensures
        threshold.millionths == 180_000,
{
    Threshold { millionths: 180_000 }
}

pub fn default_history_limit() -> (limit: usize)
    ensures
        limit == 5,
{
    5
}

/// Feedback sounds play at full volume, in hundredths.
pub fn default_audio_feedback_volume() -> (volume: u8)
    ensures
        volume == 100,
{
    100
}

pub fn default_sound_theme() -> (theme: SoundTheme)
    ensures
        theme == SoundTheme::Marimba,
{
    SoundTheme::Marimba
}

pub fn default_transcription_provider() -> (provider: String)
    ensures
        provider@ == "local"@,
{
    String::from_str("local")
}

/// Everything the user can configure. The volume is in hundredths of the
/// full volume.
#[derive(Debug, PartialEq, Eq)]
pub struct AppSettings {
    pub bindings: Vec<ShortcutBinding>,
    pub push_to_talk: bool,
    pub audio_feedback: bool,
    pub audio_feedback_volume: u8,
    pub sound_theme: SoundTheme,
    pub start_hidden: bool,
    pub autostart_enabled: bool,
    pub selected_model: String,
    pub always_on_microphone: bool,
    pub selected_microphone: Option<String>,
    pub selected_output_device: Option<String>,
    pub translate_to_english: bool,
    pub selected_language: String,
    pub overlay_position: OverlayPosition,
    pub debug_mode: bool,
    pub custom_words: Vec<String>,
    pub model_unload_timeout: ModelUnloadTimeout,
    pub word_correction_threshold: Threshold,
    pub history_limit: usize,
    pub paste_method: PasteMethod,
    pub clipboard_handling: ClipboardHandling,
    pub mute_while_recording: bool,
    pub mistral_api_key: Option<String>,
    pub deepgram_api_key: Option<String>,
    pub assemblyai_api_key: Option<String>,
    pub gladia_api_key: Option<String>,
    pub transcription_provider: String,
}

/// What `AppSettings` hold, as mathematical values.
pub struct AppSettingsView {
    pub bindings: Seq<ShortcutBindingView>,
    pub push_to_talk: bool,
    pub audio_feedback: bool,
    pub audio_feedback_volume: u8,
    pub sound_theme: SoundTheme,
    pub start_hidden: bool,
    pub autostart_enabled: bool,
    pub selected_model: Seq<char>,
    pub always_on_microphone: bool,
    pub selected_microphone: Option<Seq<char>>,
    pub selected_output_device: Option<Seq<char>>,
    pub translate_to_english: bool,
    pub selected_language: Seq<char>,
    pub overlay_position: OverlayPosition,
    pub debug_mode: bool,
    pub custom_words: Seq<Seq<char>>,
    pub model_unload_timeout: ModelUnloadTimeout,
    pub word_correction_threshold: Threshold,
    pub history_limit: usize,
    pub paste_method: PasteMethod,
    pub clipboard_handling: ClipboardHandling,
    pub mute_while_recording: bool,
    pub mistral_api_key: Option<Seq<char>>,
    pub deepgram_api_key: Option<Seq<char>>,
    pub assemblyai_api_key: Option<Seq<char>>,
    pub gladia_api_key: Option<Seq<char>>,
    pub transcription_provider: Seq<char>,
}

/// The views of a run of bindings.
pub open spec fn binding_views(bindings: Seq<ShortcutBinding>) -> Seq<ShortcutBindingView> {
    Seq::new(bindings.len(), |i: int| bindings[i]@)
}

impl View for AppSettings {
    type V = AppSettingsView;

    open spec fn view(&self) -> AppSettingsView {
        AppSettingsView {
            bindings: binding_views(self.bindings@),
            push_to_talk: self.push_to_talk,
            audio_feedback: self.audio_feedback,
            audio_feedback_volume: self.audio_feedback_volume,
            sound_theme: self.sound_theme,
            start_hidden: self.start_hidden,
            autostart_enabled: self.autostart_enabled,
            selected_model: self.selected_model@,
            always_on_microphone: self.always_on_microphone,
            selected_microphone: opt_text(self.selected_microphone),
            selected_output_device: opt_text(self.selected_output_device),
            translate_to_english: self.translate_to_english,
            selected_language: self.selected_language@,
            overlay_position: self.overlay_position,
            debug_mode: self.debug_mode,
            custom_words: texts(self.custom_words@),
            model_unload_timeout: self.model_unload_timeout,
            word_correction_threshold: self.word_correction_threshold,
            history_limit: self.history_limit,
            paste_method: self.paste_method,
            clipboard_handling: self.clipboard_handling,
            mute_while_recording: self.mute_while_recording,
            mistral_api_key: opt_text(self.mistral_api_key),
            deepgram_api_key: opt_text(self.deepgram_api_key),
            assemblyai_api_key: opt_text(self.assemblyai_api_key),
            gladia_api_key: opt_text(self.gladia_api_key),
            transcription_provider: self.transcription_provider@,
        }
    }
}

/// Whether no two of the shortcuts have the same id.
pub open spec fn has_distinct_bindings(bindings: Seq<ShortcutBindingView>) -> bool {
    forall|i: int, j: int|
        0 <= i < j < bindings.len() ==> (#[trigger] bindings[i]).id != (#[trigger] bindings[j]).id
}

/// The one shortcut that exists from the start.
pub open spec fn default_binding(platform: Platform) -> ShortcutBindingView {
    ShortcutBindingView {
        id: "transcribe"@,
        name: "Transcribe"@,
        description: "Converts your speech into text."@,
        default_binding: platform_shortcut(platform),
        current_binding: platform_shortcut(platform),
    }
}

/// The settings of a fresh installation on `platform`.
pub open spec fn default_settings(platform: Platform) -> AppSettingsView {
    AppSettingsView {
        bindings: seq![default_binding(platform)],
        push_to_talk: true,
        audio_feedback: false,
        audio_feedback_volume: 100,
        sound_theme: SoundTheme::Marimba,
        start_hidden: false,
        autostart_enabled: false,
        selected_model: Seq::empty(),
        always_on_microphone: false,
        selected_microphone: None,
        selected_output_device: None,
        translate_to_english: false,
        selected_language: "auto"@,
        overlay_position: platform_overlay_position(platform),
        debug_mode: false,
        custom_words: Seq::empty(),
        model_unload_timeout: ModelUnloadTimeout::Never,
        word_correction_threshold: Threshold { millionths: 180_000 },
        history_limit: 5,
        paste_method: platform_paste_method(platform),
        clipboard_handling: ClipboardHandling::DontModify,
        mute_while_recording: false,
        mistral_api_key: None,
        deepgram_api_key: None,
        assemblyai_api_key: None,
        gladia_api_key: None,
        transcription_provider: "local"@,
    }
}

fn default_shortcut(platform: Platform) -> (shortcut: &'static str)
    ensures
        shortcut@ == platform_shortcut(platform),
{
    match platform {
        Platform::Windows => "ctrl+space",
        Platform::MacOs => "option+space",
        Platform::Linux => "ctrl+space",
        Platform::Other => "alt+space",
    }
}

/// The settings of a fresh installation on `platform`.
pub fn get_default_settings(platform: Platform) -> (settings: AppSettings)
    ensures
        settings@ == default_settings(platform),
        has_distinct_bindings(settings@.bindings),
{
    let shortcut = default_shortcut(platform);
    let mut bindings: Vec<ShortcutBinding> = Vec::new();
    bindings.push(
        ShortcutBinding {
            id: String::from_str("transcribe"),
            name: String::from_str("Transcribe"),
            description: String::from_str("Converts your speech into text."),
            default_binding: String::from_str(shortcut),
            current_binding: String::from_str(shortcut),
        },
    );
    let settings = AppSettings {
        bindings,
        push_to_talk: true,
        audio_feedback: false,
        audio_feedback_volume: default_audio_feedback_volume(),
        sound_theme: default_sound_theme(),
        start_hidden: default_start_hidden(),
        autostart_enabled: default_autostart_enabled(),
        selected_model: String::new(),
        always_on_microphone: false,
        selected_microphone: None,
        selected_output_device: None,
        translate_to_english: false,
        selected_language: String::from_str("auto"),
        overlay_position: default_overlay_position(platform),
        debug_mode: false,
        custom_words: Vec::new(),
        model_unload_timeout: ModelUnloadTimeout::Never,
        word_correction_threshold: default_word_correction_threshold(),
        history_limit: default_history_limit(),
        paste_method: PasteMethod::default_for(platform),
        clipboard_handling: ClipboardHandling::DontModify,
        mute_while_recording: false,
        mistral_api_key: None,
        deepgram_api_key: None,
        assemblyai_api_key: None,
        gladia_api_key: None,
        transcription_provider: default_transcription_provider(),
    };
    assert(settings@.bindings =~= seq![default_binding(platform)]);
    assert(settings@.custom_words =~= Seq::empty());
    settings
}

/// What the settings store holds: nothing, settings, or something that
/// could not be read as settings.
pub enum Stored {
    Missing,
    Unreadable,
    Settings(AppSettings),
}

/// The settings to work with, given what the store holds: the stored ones
/// where they could be read, the defaults otherwise.
pub open spec fn settings_from(stored: Stored, platform: Platform) -> AppSettingsView {
    match stored {
        Stored::Settings(settings) => settings@,
        _ => default_settings(platform),
    }
}

/// The settings to work with. Nothing is written back.
pub fn get_settings(stored: Stored, platform: Platform) -> (settings: AppSettings)
    ensures
        settings@ == settings_from(stored, platform),
{
    match stored {
        Stored::Settings(settings) => settings,
        _ => get_default_settings(platform),
    }
}

/// The settings to start with, and whether they are to be written to the
/// store: they are where the store held none that could be read.
pub fn load_or_create_app_settings(stored: Stored, platform: Platform) -> (loaded: (
    AppSettings,
    bool,
))
    ensures
        loaded.0@ == settings_from(stored, platform),
        loaded.1 == !(stored is Settings),
{
    match stored {
        Stored::Settings(settings) => (settings, false),
        _ => (get_default_settings(platform), true),
    }
}

/// A copy of the shortcuts.
pub fn get_bindings(settings: &AppSettings) -> (bindings: Vec<ShortcutBinding>)
    ensures
        binding_views(bindings@) == settings@.bindings,
{
    let mut bindings: Vec<ShortcutBinding> = Vec::new();
    let mut i: usize = 0;
    while i < settings.bindings.len()
        invariant
            i <= settings.bindings@.len(),
            bindings@.len() == i,
            forall|j: int| 0 <= j < i ==> (#[trigger] bindings@[j])@ == settings.bindings@[j]@,
        decreases settings.bindings@.len() - i,
    {
        bindings.push(settings.bindings[i].clone());
        i += 1;
    }
    assert(binding_views(bindings@) =~= settings@.bindings);
    bindings
}

/// Whether `i` is the first place of `bindings` that holds the shortcut
/// `id`.
pub open spec fn is_binding_at(bindings: Seq<ShortcutBindingView>, id: Seq<char>, i: int) -> bool {
    &&& 0 <= i < bindings.len()
    &&& bindings[i].id == id
    &&& forall|j: int| 0 <= j < i ==> (#[trigger] bindings[j]).id != id
}

/// The shortcut `id`, or `None` where there is no such shortcut.
pub fn get_stored_binding(settings: &AppSettings, id: &str) -> (binding: Option<ShortcutBinding>)
    ensures
        match binding {
            Some(b) => exists|i: int|
                is_binding_at(settings@.bindings, id@, i) && b@ == settings@.bindings[i],
            None => forall|i: int|
                0 <= i < settings@.bindings.len() ==> (#[trigger] settings@.bindings[i]).id != id@,
        },
{
    let mut i: usize = 0;
    while i < settings.bindings.len()
        invariant
            i <= settings.bindings@.len(),
            forall|j: int| 0 <= j < i ==> (#[trigger] settings@.bindings[j]).id != id@,
        decreases settings.bindings@.len() - i,
    {
        if str_eq(settings.bindings[i].id.as_str(), id) {
            let b = settings.bindings[i].clone();
            assert(is_binding_at(settings@.bindings, id@, i as int) && b@
                == settings@.bindings[i as int]);
            return Some(b);
        }
        i += 1;
    }
    None
}

/// The number of transcriptions that the history keeps.
pub fn get_history_limit(settings: &AppSettings) -> (limit: usize)
    ensures
        limit == settings@.history_limit,
{
    settings.history_limit
}

} // verus!
