use app_settings::{
    AdblockSettings, AppSettings, CacheSettings, ClipboardSettings, GeneralSettings, Language,
    Theme,
};

#[test]
fn default_settings_has_sane_values() {
    let s = AppSettings::default();
    assert!(s.adblock.enabled);
    assert!(s.adblock.custom_rules.is_empty());
    assert!(s.cache.enabled);
    assert_eq!(s.cache.max_size_mb, 200);
    assert_eq!(f64::from_bits(s.cache.hit_rate_1h_bits), 0.0);
    assert!(s.clipboard.enabled);
    assert_eq!(s.clipboard.max_records, 2000);
    assert_eq!(s.clipboard.retention_days, 30);
    assert!(s.clipboard.ignore_short);
    assert_eq!(s.general.theme, Theme::Light);
    assert_eq!(s.general.language, Language::Zh);
}

// ========== Validation tests ==========

#[test]
fn validate_allows_valid_rules() {
    let s = AdblockSettings {
        enabled: true,
        custom_rules: vec!["||example.com^".into(), "##.ad".into(), "/banner/".into()],
    };
    assert!(s.validate().is_empty());
}

#[test]
fn validate_rejects_bad_rule_format() {
    let s = AdblockSettings {
        enabled: true,
        custom_rules: vec!["bad-rule".into()],
    };
    assert!(!s.validate().is_empty());
}

#[test]
fn validate_skips_empty_rules() {
    let s = AdblockSettings {
        enabled: true,
        custom_rules: vec!["  ".into(), "||ok.com^".into()],
    };
    assert!(s.validate().is_empty());
}

#[test]
fn validate_cache_size_range() {
    let s = CacheSettings {
        max_size_mb: 10,
        ..Default::default()
    };
    assert!(!s.validate().is_empty());
    let s2 = CacheSettings {
        max_size_mb: 2000,
        ..Default::default()
    };
    assert!(!s2.validate().is_empty());
    let s3 = CacheSettings {
        max_size_mb: 200,
        ..Default::default()
    };
    assert!(s3.validate().is_empty());
}

#[test]
fn validate_clipboard_max_records() {
    assert!(!ClipboardSettings {
        max_records: 999,
        ..Default::default()
    }
    .validate()
    .is_empty());
    assert!(ClipboardSettings {
        max_records: 2000,
        ..Default::default()
    }
    .validate()
    .is_empty());
}

#[test]
fn validate_clipboard_retention_days() {
    assert!(!ClipboardSettings {
        retention_days: 99,
        ..Default::default()
    }
    .validate()
    .is_empty());
    assert!(ClipboardSettings {
        retention_days: 0,
        ..Default::default()
    }
    .validate()
    .is_empty());
}

#[test]
fn validate_general_enums_always_pass() {
    let good = GeneralSettings {
        theme: Theme::Dark,
        language: Language::En,
    };
    assert!(good.validate().is_empty());
}

#[test]
fn summary_shows_module_state() {
    let ad = AdblockSettings {
        enabled: true,
        custom_rules: vec!["||x.com^".into()],
    };
    assert!(ad.summary().contains("enabled"));
    assert!(ad.summary().contains("1"));

    let cache = CacheSettings {
        enabled: false,
        ..Default::default()
    };
    assert!(cache.summary().contains("disabled"));
}

#[test]
fn stats_returns_json_object() {
    let g = GeneralSettings::default();
    let s = g.stats();
    assert_eq!(s["theme"], "light");
    assert_eq!(s["language"], "zh");
}
