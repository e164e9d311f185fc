//! Persistent settings and the records kept in the history and dictionary
//! databases.
//!
//! The configuration is stored as JSON; fields missing from a stored value
//! take their defaults. After loading and before saving, the configuration
//! is normalized: the polish preference is sanitized, the retired
//! Chinese-script preference is reset, and on macOS the legacy `Alt+/`
//! hotkey label is renamed.
use vstd::prelude::*;

use crate::doubao::{ARK_BASE_URL, DOUBAO_AUDIO_MODEL, DOUBAO_AUDIO_PROVIDER};
use crate::prompt::{sanitize_custom_prompt, sanitize_custom_prompt_spec};
use crate::text::chars_eq;

verus! {

/// Preset name of the self-hosted Whisper-compatible STT server.
pub const CUSTOM_WHISPER_PRESET_SPEACHES: &'static str = "speaches";

/// Default base URL of the self-hosted Whisper-compatible STT server.
pub const DEFAULT_CUSTOM_WHISPER_BASE_URL: &'static str = "http://localhost:8000/v1";

/// Default model of the self-hosted Whisper-compatible STT server.
pub const DEFAULT_CUSTOM_WHISPER_MODEL: &'static str = "Systran/faster-whisper-small";

/// Resource id of the Volcengine Seed ASR service.
pub const VOLCENGINE_SEEDASR_RESOURCE_ID: &'static str = "volc.seedasr.sauc.duration";

/// Default hotkey on macOS.
pub const MACOS_HOTKEY: &'static str = "Option+/";

/// Default hotkey on other platforms.
pub const OTHER_HOTKEY: &'static str = "Ctrl+/";

/// Hotkey label that older macOS builds stored for `Option+/`.
pub const LEGACY_MACOS_HOTKEY: &'static str = "Alt+/";

/// The only Chinese-script preference still honoured.
pub const PRESERVE_SCRIPT: &'static str = "preserve";

/// Maximum number of history entries retained; older ones are pruned on
/// insert.
pub const MAX_HISTORY_ENTRIES: u32 = 5000;

/// The application settings.
#[derive(Debug, Clone)]
pub struct AppConfig {
    pub stt_provider: String,
    pub stt_api_key: String,
    pub stt_custom_api_key: String,
    pub stt_language: String,
    pub stt_custom_preset: String,
    pub stt_custom_base_url: String,
    pub stt_custom_model: String,
    pub stt_volcengine_resource_id: String,
    pub llm_provider: String,
    pub llm_api_key: String,
    pub llm_model: String,
    pub llm_base_url: String,
    pub polish_enabled: bool,
    pub polish_custom_prompt: String,
    pub polish_chinese_script: String,
    pub translate_enabled: bool,
    pub target_lang: String,
    pub hotkey: String,
    pub hotkey_mode: String,
    pub output_mode: String,
    pub selected_text_enabled: bool,
    pub theme: String,
    pub auto_start: bool,
    pub close_to_tray: bool,
    pub start_minimized: bool,
    pub max_recording_seconds: u32,
    pub ui_language: String,
    pub capsule_auto_hide: bool,
    /// When true, the polished result is shown in an editable preview before
    /// being output to the target app.
    pub preview_before_output: bool,
    /// When true, short audio cues play on pipeline state transitions.
    pub sound_effects_enabled: bool,
    /// When true, a single Enter is pressed after the text is output.
    pub output_append_enter: bool,
    /// When true, long silent gaps are collapsed before audio upload.
    pub trim_silence: bool,
}

/// The default hotkey of a platform.
pub open spec fn default_hotkey(is_macos: bool) -> Seq<char> {
    if is_macos {
        MACOS_HOTKEY@
    } else {
        OTHER_HOTKEY@
    }
}

/// The settings of an existing installation whose stored value names no
/// field (`capsule_auto_hide` off), on macOS or elsewhere.
pub open spec fn is_default_config(c: AppConfig, is_macos: bool) -> bool {
    &&& c.stt_provider@ == DOUBAO_AUDIO_PROVIDER@
    &&& c.stt_api_key@ == Seq::<char>::empty()
    &&& c.stt_custom_api_key@ == Seq::<char>::empty()
    &&& c.stt_language@ == "multi"@
    &&& c.stt_custom_preset@ == CUSTOM_WHISPER_PRESET_SPEACHES@
    &&& c.stt_custom_base_url@ == DEFAULT_CUSTOM_WHISPER_BASE_URL@
    &&& c.stt_custom_model@ == DEFAULT_CUSTOM_WHISPER_MODEL@
    &&& c.stt_volcengine_resource_id@ == VOLCENGINE_SEEDASR_RESOURCE_ID@
    &&& c.llm_provider@ == "doubao"@
    &&& c.llm_api_key@ == Seq::<char>::empty()
    &&& c.llm_model@ == DOUBAO_AUDIO_MODEL@
    &&& c.llm_base_url@ == ARK_BASE_URL@
    &&& !c.polish_enabled
    &&& c.polish_custom_prompt@ == Seq::<char>::empty()
    &&& c.polish_chinese_script@ == PRESERVE_SCRIPT@
    &&& !c.translate_enabled
    &&& c.target_lang@ == "en"@
    &&& c.hotkey@ == default_hotkey(is_macos)
    &&& c.hotkey_mode@ == "toggle"@
    &&& c.output_mode@ == "keyboard"@
    &&& !c.selected_text_enabled
    &&& c.theme@ == "system"@
    &&& !c.auto_start
    &&& c.close_to_tray
    &&& !c.start_minimized
    &&& c.max_recording_seconds == 30
    &&& c.ui_language@ == "en"@
    &&& !c.capsule_auto_hide
    &&& c.preview_before_output
    &&& c.sound_effects_enabled
    &&& c.output_append_enter
    &&& c.trim_silence
}

/// `a` and `b` agree on every field but the three that normalization
/// rewrites (polish preference, Chinese script, hotkey) and
/// `capsule_auto_hide`.
pub open spec fn same_plain_fields(a: AppConfig, b: AppConfig) -> bool {
    &&& a.stt_provider == b.stt_provider
    &&& a.stt_api_key == b.stt_api_key
    &&& a.stt_custom_api_key == b.stt_custom_api_key
    &&& a.stt_language == b.stt_language
    &&& a.stt_custom_preset == b.stt_custom_preset
    &&& a.stt_custom_base_url == b.stt_custom_base_url
    &&& a.stt_custom_model == b.stt_custom_model
    &&& a.stt_volcengine_resource_id == b.stt_volcengine_resource_id
    &&& a.llm_provider == b.llm_provider
    &&& a.llm_api_key == b.llm_api_key
    &&& a.llm_model == b.llm_model
    &&& a.llm_base_url == b.llm_base_url
    &&& a.polish_enabled == b.polish_enabled
    &&& a.translate_enabled == b.translate_enabled
    &&& a.target_lang == b.target_lang
    &&& a.hotkey_mode == b.hotkey_mode
    &&& a.output_mode == b.output_mode
    &&& a.selected_text_enabled == b.selected_text_enabled
    &&& a.theme == b.theme
    &&& a.auto_start == b.auto_start
    &&& a.close_to_tray == b.close_to_tray
    &&& a.start_minimized == b.start_minimized
    &&& a.max_recording_seconds == b.max_recording_seconds
    &&& a.ui_language == b.ui_language
    &&& a.preview_before_output == b.preview_before_output
    &&& a.sound_effects_enabled == b.sound_effects_enabled
    &&& a.output_append_enter == b.output_append_enter
    &&& a.trim_silence == b.trim_silence
}

/// The hotkey after normalization: on macOS the legacy `Alt+/` label
/// becomes `Option+/`.
pub open spec fn normalized_hotkey(hotkey: Seq<char>, is_macos: bool) -> Seq<char> {
    if is_macos && hotkey == LEGACY_MACOS_HOTKEY@ {
        MACOS_HOTKEY@
    } else {
        hotkey
    }
}

/// `after` is `before` normalized on the given platform, with
/// `capsule_auto_hide` set to `capsule_auto_hide`.
pub open spec fn is_normalized_of(
    after: AppConfig,
    before: AppConfig,
    is_macos: bool,
    capsule_auto_hide: bool,
) -> bool {
    &&& same_plain_fields(after, before)
    &&& after.polish_custom_prompt@ == sanitize_custom_prompt_spec(before.polish_custom_prompt@)
    &&& after.polish_chinese_script@ == PRESERVE_SCRIPT@
    &&& after.hotkey@ == normalized_hotkey(before.hotkey@, is_macos)
    &&& after.capsule_auto_hide == capsule_auto_hide
}

impl AppConfig {
    /// The default settings of an existing installation on the given
    /// platform.
    pub fn default_for(is_macos: bool) -> (r: Self)
        ensures
            is_default_config(r, is_macos),
    {
        AppConfig {
            stt_provider: String::from_str(DOUBAO_AUDIO_PROVIDER),
            stt_api_key: String::new(),
            stt_custom_api_key: String::new(),
            stt_language: String::from_str("multi"),
            stt_custom_preset: String::from_str(CUSTOM_WHISPER_PRESET_SPEACHES),
            stt_custom_base_url: String::from_str(DEFAULT_CUSTOM_WHISPER_BASE_URL),
            stt_custom_model: String::from_str(DEFAULT_CUSTOM_WHISPER_MODEL),
            stt_volcengine_resource_id: String::from_str(VOLCENGINE_SEEDASR_RESOURCE_ID),
            llm_provider: String::from_str("doubao"),
            llm_api_key: String::new(),
            llm_model: String::from_str(DOUBAO_AUDIO_MODEL),
            llm_base_url: String::from_str(ARK_BASE_URL),
            polish_enabled: false,
            polish_custom_prompt: String::new(),
            polish_chinese_script: String::from_str(PRESERVE_SCRIPT),
            translate_enabled: false,
            target_lang: String::from_str("en"),
            hotkey: if is_macos {
                String::from_str(MACOS_HOTKEY)
            } else {
                String::from_str(OTHER_HOTKEY)
            },
            hotkey_mode: String::from_str("toggle"),
            output_mode: String::from_str("keyboard"),
            selected_text_enabled: false,
            theme: String::from_str("system"),
            auto_start: false,
            close_to_tray: true,
            start_minimized: false,
            max_recording_seconds: 30,
            ui_language: String::from_str("en"),
            capsule_auto_hide: false,
            preview_before_output: true,
            sound_effects_enabled: true,
            output_append_enter: true,
            trim_silence: true,
        }
    }

    /// The default settings of a new installation on the given platform: the
    /// defaults, with the capsule hiding itself when idle.
    pub fn new_install_default_for(is_macos: bool) -> (r: Self)
        ensures
            r.capsule_auto_hide,
            is_default_config(AppConfig { capsule_auto_hide: false, ..r }, is_macos),
    {
        AppConfig { capsule_auto_hide: true, ..Self::default_for(is_macos) }
    }

    /// The default settings of a new installation outside macOS (hotkey
    /// `Ctrl+/`). The library cannot see the build target, so macOS callers
    /// use `new_install_default_for(true)`, whose hotkey is `Option+/`.
    pub fn new_install_default() -> (r: Self)
        ensures
            r.capsule_auto_hide,
            is_default_config(AppConfig { capsule_auto_hide: false, ..r }, false),
    {
        Self::new_install_default_for(false)
    }

    /// On macOS, renames the legacy `Alt+/` hotkey label to `Option+/`.
    pub fn normalize_platform_hotkey(&mut self, is_macos: bool)
        ensures
            final(self).hotkey@ == normalized_hotkey(old(self).hotkey@, is_macos),
            same_plain_fields(*final(self), *old(self)),
            final(self).polish_custom_prompt == old(self).polish_custom_prompt,
            final(self).polish_chinese_script == old(self).polish_chinese_script,
            final(self).capsule_auto_hide == old(self).capsule_auto_hide,
    {
        if is_macos && chars_eq(&crate::text::chars_of(self.hotkey.as_str()), LEGACY_MACOS_HOTKEY) {
            self.hotkey = String::from_str(MACOS_HOTKEY);
        }
    }

    /// Sanitizes the polish preference, resets the retired Chinese-script
    /// preference and normalizes the hotkey label.
    pub fn normalize_values(&mut self, is_macos: bool)
        ensures
            is_normalized_of(*final(self), *old(self), is_macos, old(self).capsule_auto_hide),
    {
        self.polish_custom_prompt = sanitize_polish_custom_prompt(self.polish_custom_prompt.as_str());
        self.polish_chinese_script = String::from_str(PRESERVE_SCRIPT);
        self.normalize_platform_hotkey(is_macos);
    }

    /// Finishes loading a stored configuration that was read with defaults
    /// for its missing fields: an installation that predates
    /// `capsule_auto_hide` keeps the capsule visible, and the values are
    /// normalized.
    pub fn from_parsed(config: AppConfig, has_capsule_auto_hide: bool, is_macos: bool) -> (r: Self)
        ensures
            is_normalized_of(
                r,
                config,
                is_macos,
                has_capsule_auto_hide && config.capsule_auto_hide,
            ),
    {
        let mut config = config;
        if !has_capsule_auto_hide {
            config.capsule_auto_hide = false;
        }
        config.normalize_values(is_macos);
        config
    }

    /// The configuration that loading yields: the stored one, or the
    /// defaults of a new installation when there is none or it cannot be
    /// read.
    pub fn loaded_or_new_install(loaded: Option<AppConfig>, is_macos: bool) -> (r: Self)
        ensures
            loaded matches Some(c) ==> r == c,
            loaded is None ==> r.capsule_auto_hide && is_default_config(
                AppConfig { capsule_auto_hide: false, ..r },
                is_macos,
            ),
    {
        match loaded {
            Some(c) => c,
            None => Self::new_install_default_for(is_macos),
        }
    }
}

impl Default for AppConfig {
    /// The default settings outside macOS (hotkey `Ctrl+/`). The library
    /// cannot see the build target, so macOS callers use `default_for(true)`,
    /// whose hotkey is `Option+/`.
    fn default() -> (r: Self)
        ensures
            is_default_config(r, false),
    {
        Self::default_for(false)
    }
}

/// The polish preference with NUL characters removed, trimmed, and cut to at
/// most 2000 characters.
pub fn sanitize_polish_custom_prompt(value: &str) -> (r: String)
    ensures
        r@ == sanitize_custom_prompt_spec(value@),
{
    sanitize_custom_prompt(value)
}

/// One dictation kept in the history database.
#[derive(Debug, Clone)]
pub struct HistoryEntry {
    pub id: i64,
    pub created_at: String,
    pub app_name: String,
    pub app_type: String,
    pub raw_text: String,
    pub polished_text: String,
    pub language: Option<String>,
    pub duration_ms: Option<i64>,
}

/// One term of the user's dictionary.
#[derive(Debug, Clone)]
pub struct DictionaryEntry {
    pub id: i64,
    pub word: String,
    pub pronunciation: Option<String>,
}

// ─── Laws ───

/// Normalizing a normalized configuration changes none of the normalized
/// fields, so a configuration that is saved and loaded again comes back the
/// same. This fails only when the polish preference was cut at its bound
/// right after white space, which the second pass trims.
pub proof fn law_normalize_is_stable(
    stored: AppConfig,
    once: AppConfig,
    twice: AppConfig,
    is_macos: bool,
    capsule_once: bool,
    capsule_twice: bool,
)
    requires
        is_normalized_of(once, stored, is_macos, capsule_once),
        is_normalized_of(twice, once, is_macos, capsule_twice),
        !(once.polish_custom_prompt@.len() == crate::prompt::CUSTOM_PROMPT_MAX_CHARS
            && crate::text::is_white_space_spec(once.polish_custom_prompt@.last())),
    ensures
        same_plain_fields(twice, stored),
        twice.polish_custom_prompt@ == once.polish_custom_prompt@,
        twice.polish_chinese_script@ == once.polish_chinese_script@,
        twice.hotkey@ == once.hotkey@,
{
    let p = once.polish_custom_prompt@;
    crate::prompt::law_sanitized_custom_prompt_is_bounded(stored.polish_custom_prompt@);
    crate::text::lemma_remove_char_noop(p, '\0');
    crate::text::lemma_trim_noop(p);
    assert(sanitize_custom_prompt_spec(p) == p);
    reveal_strlit("Option+/");
    reveal_strlit("Alt+/");
    assert(MACOS_HOTKEY@ == "Option+/"@);
    assert("Option+/"@.len() == 8);
    assert("Alt+/"@.len() == 5);
    assert(MACOS_HOTKEY@ != LEGACY_MACOS_HOTKEY@);
}

} // verus!
