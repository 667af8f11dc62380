//! The settings data: one struct per module, the appearance enums, and the
//! default value of every field.

use vstd::prelude::*;

verus! {

/// Colour theme of the user interface.
#[derive(Clone, Copy, Debug, PartialEq, Eq, Structural)]
pub enum Theme {
    Light,
    Dark,
    System,
}

/// Language of the user interface.
#[derive(Clone, Copy, Debug, PartialEq, Eq, Structural)]
pub enum Language {
    Zh,
    En,
}

/// Default size limit of the cache, in MB.
pub const DEFAULT_CACHE_SIZE_MB: u32 = 200;

/// Default number of clipboard records kept.
pub const DEFAULT_MAX_RECORDS: u32 = 2000;

/// Default number of days clipboard records are kept.
pub const DEFAULT_RETENTION_DAYS: u32 = 30;

/// The theme used when none is configured.
pub fn default_theme() -> (r: Theme)
    ensures
        r == Theme::Light,
{
    Theme::Light
}

/// The language used when none is configured.
pub fn default_language() -> (r: Language)
    ensures
        r == Language::Zh,
{
    Language::Zh
}

/// The value of the `enabled` switches (and of `ignore_short`) when none is configured.
pub fn bool_true() -> (r: bool)
    ensures
        r,
{
    true
}

/// The cache size limit used when none is configured.
pub fn default_cache_size() -> (r: u32)
    ensures
        r == DEFAULT_CACHE_SIZE_MB,
{
    DEFAULT_CACHE_SIZE_MB
}

/// The number of clipboard records kept when none is configured.
pub fn default_max_records() -> (r: u32)
    ensures
        r == DEFAULT_MAX_RECORDS,
{
    DEFAULT_MAX_RECORDS
}

/// The clipboard retention in days when none is configured.
pub fn default_retention_days() -> (r: u32)
    ensures
        r == DEFAULT_RETENTION_DAYS,
{
    DEFAULT_RETENTION_DAYS
}

/// All settings of the app, one field per module.
#[derive(Clone, Debug)]
pub struct AppSettings {
    pub adblock: AdblockSettings,
    pub cache: CacheSettings,
    pub clipboard: ClipboardSettings,
    pub general: GeneralSettings,
}

/// Ad blocking: a switch and the user's own filter rules.
#[derive(Clone, Debug)]
pub struct AdblockSettings {
    pub enabled: bool,
    pub custom_rules: Vec<String>,
}

/// Page cache: a switch, a size limit, and the hit rate of the last hour.
/// The hit rate is a 64-bit IEEE 754 number, held here by its bit pattern
/// (`f64::to_bits`); 0 stands for a rate of 0.0.
#[derive(Clone, Debug)]
pub struct CacheSettings {
    pub enabled: bool,
    pub max_size_mb: u32,
    pub hit_rate_1h_bits: u64,
}

/// Clipboard history.
#[derive(Clone, Debug)]
pub struct ClipboardSettings {
    pub enabled: bool,
    pub max_records: u32,
    pub retention_days: u32,
    pub ignore_short: bool,
}

/// Appearance.
#[derive(Clone, Debug)]
pub struct GeneralSettings {
    pub theme: Theme,
    pub language: Language,
}

/// The default ad-blocking settings: on, no custom rules.
pub open spec fn is_default_adblock(s: AdblockSettings) -> bool {
    s.enabled && s.custom_rules@.len() == 0
}

/// The default cache settings: on, a limit of 200 MB, a hit rate of 0.0.
pub open spec fn is_default_cache(s: CacheSettings) -> bool {
    s.enabled && s.max_size_mb == DEFAULT_CACHE_SIZE_MB && s.hit_rate_1h_bits == 0
}

/// The default clipboard settings: on, 2000 records, 30 days, short entries ignored.
pub open spec fn is_default_clipboard(s: ClipboardSettings) -> bool {
    s.enabled && s.max_records == DEFAULT_MAX_RECORDS && s.retention_days
        == DEFAULT_RETENTION_DAYS && s.ignore_short
}

/// The default appearance: light theme, Chinese.
pub open spec fn is_default_general(s: GeneralSettings) -> bool {
    s.theme == Theme::Light && s.language == Language::Zh
}

/// Every module of `s` holds its default settings.
pub open spec fn is_default_app(s: AppSettings) -> bool {
    is_default_adblock(s.adblock) && is_default_cache(s.cache) && is_default_clipboard(s.clipboard)
        && is_default_general(s.general)
}

impl Default for AppSettings {
    fn default() -> (r: Self)
        ensures
            is_default_app(r),
    {
        AppSettings {
            adblock: AdblockSettings { enabled: bool_true(), custom_rules: Vec::new() },
            cache: CacheSettings {
                enabled: bool_true(),
                max_size_mb: default_cache_size(),
                hit_rate_1h_bits: 0,
            },
            clipboard: ClipboardSettings {
                enabled: bool_true(),
                max_records: default_max_records(),
                retention_days: default_retention_days(),
                ignore_short: bool_true(),
            },
            general: GeneralSettings { theme: default_theme(), language: default_language() },
        }
    }
}

impl Default for AdblockSettings {
    fn default() -> (r: Self)
        ensures
            is_default_adblock(r),
    {
        AppSettings::default().adblock
    }
}

impl Default for CacheSettings {
    fn default() -> (r: Self)
        ensures
            is_default_cache(r),
    {
        AppSettings::default().cache
    }
}

impl Default for ClipboardSettings {
    fn default() -> (r: Self)
        ensures
            is_default_clipboard(r),
    {
        AppSettings::default().clipboard
    }
}

impl Default for GeneralSettings {
    fn default() -> (r: Self)
        ensures
            is_default_general(r),
    {
        AppSettings::default().general
    }
}

} // verus!
