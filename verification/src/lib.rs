//! Settings model of a desktop app: the settings of each module, their
//! defaults, validation and summaries, and the decisions of the health check.

pub mod health;
pub mod json;
pub mod laws;
pub mod laws_spelled;
pub mod modules;
pub mod text;
pub mod types;

pub use health::{
    disk_space_message, health_report, settings_file_report, BackupState, DiskInfo, HealthReport,
    SettingsFileState,
};
pub use modules::check_trimmed_rule;
pub use types::{
    bool_true, default_cache_size, default_language, default_max_records, default_retention_days,
    default_theme, AdblockSettings, AppSettings, CacheSettings, ClipboardSettings,
    GeneralSettings, Language, Theme,
};
