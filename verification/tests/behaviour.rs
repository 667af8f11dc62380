use app_settings::text::{is_white_space, push_decimal, push_list, trim_text};
use app_settings::{
    bool_true, check_trimmed_rule, default_cache_size, default_language, default_max_records,
    default_retention_days, default_theme, disk_space_message, health_report,
    settings_file_report, AdblockSettings, AppSettings, BackupState, CacheSettings,
    ClipboardSettings, DiskInfo, GeneralSettings, Language, SettingsFileState, Theme,
};

fn rules(list: &[&str]) -> AdblockSettings {
    AdblockSettings {
        enabled: true,
        custom_rules: list.iter().map(|r| r.to_string()).collect(),
    }
}

#[test]
fn default_functions_give_documented_values() {
    assert_eq!(default_theme(), Theme::Light);
    assert_eq!(default_language(), Language::Zh);
    assert!(bool_true());
    assert_eq!(default_cache_size(), 200);
    assert_eq!(default_max_records(), 2000);
    assert_eq!(default_retention_days(), 30);
}

#[test]
fn module_defaults_match_app_defaults() {
    let app = AppSettings::default();
    let ad = AdblockSettings::default();
    assert_eq!(ad.enabled, app.adblock.enabled);
    assert_eq!(ad.custom_rules, app.adblock.custom_rules);
    let c = CacheSettings::default();
    assert_eq!(c.max_size_mb, app.cache.max_size_mb);
    assert_eq!(c.hit_rate_1h_bits, 0.0f64.to_bits());
    let k = ClipboardSettings::default();
    assert_eq!(k.max_records, 2000);
    assert_eq!(k.retention_days, 30);
    assert!(k.ignore_short);
    let g = GeneralSettings::default();
    assert_eq!(g.theme, Theme::Light);
    assert_eq!(g.language, Language::Zh);
}

#[test]
fn default_settings_pass_every_validation() {
    let s = AppSettings::default();
    assert!(s.adblock.validate().is_empty());
    assert!(s.cache.validate().is_empty());
    assert!(s.clipboard.validate().is_empty());
    assert!(s.general.validate().is_empty());
}

#[test]
fn rejected_rule_message_names_trimmed_rule() {
    let errors = rules(&["  bad-rule\t"]).validate();
    assert_eq!(errors, vec!["invalid rule format: 'bad-rule'".to_string()]);
}

#[test]
fn one_message_per_rejected_rule_in_order() {
    let errors = rules(&["a", "||ok^", "", "b c", "/x/", "##y", "|single"]).validate();
    assert_eq!(
        errors,
        vec![
            "invalid rule format: 'a'".to_string(),
            "invalid rule format: 'b c'".to_string(),
            "invalid rule format: '|single'".to_string(),
        ]
    );
}

#[test]
fn whitespace_only_rules_are_skipped() {
    assert!(rules(&["", " ", "\t\n", "\u{A0}\u{3000}"]).validate().is_empty());
}

#[test]
fn prefix_after_leading_whitespace_is_accepted() {
    assert!(rules(&["   ||example.com^  ", "\t##.banner"]).validate().is_empty());
}

#[test]
fn check_trimmed_rule_cases() {
    assert_eq!(check_trimmed_rule(""), None);
    assert_eq!(check_trimmed_rule("/"), None);
    assert_eq!(check_trimmed_rule("||"), None);
    assert_eq!(check_trimmed_rule("#"), Some("invalid rule format: '#'".to_string()));
    assert_eq!(check_trimmed_rule("x||"), Some("invalid rule format: 'x||'".to_string()));
}

#[test]
fn trim_removes_unicode_whitespace_at_both_ends() {
    assert_eq!(trim_text("  a b  "), "a b");
    assert_eq!(trim_text("\u{2003}x\u{2028}"), "x");
    assert_eq!(trim_text("   "), "");
    assert_eq!(trim_text("é ü"), "é ü");
}

#[test]
fn decimal_and_list_text() {
    let mut s = String::new();
    push_decimal(&mut s, 0);
    assert_eq!(s, "0");
    let mut s = String::from("n=");
    push_decimal(&mut s, 18446744073709551615);
    assert_eq!(s, "n=18446744073709551615");
    let mut s = String::new();
    push_list(&mut s, &vec![7, 14, 30, 0]);
    assert_eq!(s, "[7, 14, 30, 0]");
    let mut s = String::new();
    push_list(&mut s, &vec![]);
    assert_eq!(s, "[]");
}

#[test]
fn cache_bounds_are_inclusive() {
    let at = |n: u32| CacheSettings { max_size_mb: n, ..Default::default() }.validate();
    assert!(at(50).is_empty());
    assert!(at(1000).is_empty());
    assert_eq!(at(49), vec!["cache size 49MB out of range (50-1000)".to_string()]);
    assert_eq!(at(1001), vec!["cache size 1001MB out of range (50-1000)".to_string()]);
    assert_eq!(at(0), vec!["cache size 0MB out of range (50-1000)".to_string()]);
}

#[test]
fn clipboard_messages_list_allowed_values() {
    let errors = ClipboardSettings {
        max_records: 999,
        retention_days: 99,
        ..Default::default()
    }
    .validate();
    assert_eq!(
        errors,
        vec![
            "max records 999 not in allowed values: [500, 1000, 2000, 5000]".to_string(),
            "retention days 99 not in allowed values: [7, 14, 30, 0]".to_string(),
        ]
    );
    for m in [500, 1000, 2000, 5000] {
        for d in [7, 14, 30, 0] {
            let k = ClipboardSettings { max_records: m, retention_days: d, ..Default::default() };
            assert!(k.validate().is_empty());
        }
    }
}

#[test]
fn summaries_exact_text() {
    assert_eq!(rules(&["a", "b"]).summary(), "enabled, 2 custom rules");
    assert_eq!(
        AdblockSettings { enabled: false, custom_rules: vec![] }.summary(),
        "disabled"
    );
    assert_eq!(CacheSettings::default().summary(), "enabled, 200MB limit");
    assert_eq!(ClipboardSettings::default().summary(), "enabled, max 2000 records");
    assert_eq!(
        ClipboardSettings { enabled: false, ..Default::default() }.summary(),
        "disabled"
    );
    assert_eq!(GeneralSettings::default().summary(), "theme=Light, lang=Zh");
    assert_eq!(
        GeneralSettings { theme: Theme::System, language: Language::En }.summary(),
        "theme=System, lang=En"
    );
}

#[test]
fn stats_hold_field_values() {
    let ad = rules(&["||a^", "x"]);
    let s = ad.stats();
    assert_eq!(s["enabled"], true);
    assert_eq!(s["rule_count"], 2);
    let k = ClipboardSettings { enabled: false, ..Default::default() };
    let s = k.stats();
    assert_eq!(s["enabled"], false);
    assert_eq!(s["max_records"], 2000);
    assert_eq!(s["retention_days"], 30);
    assert_eq!(s.as_object().map(|o| o.len()), Some(3));
    let g = GeneralSettings { theme: Theme::Dark, language: Language::En }.stats();
    assert_eq!(g["theme"], "dark");
    assert_eq!(g["language"], "en");
}

#[test]
fn settings_file_report_cases() {
    let r = settings_file_report(SettingsFileState::Missing);
    assert_eq!(r.messages, vec!["no settings file yet (will create defaults)".to_string()]);
    assert!(!r.restore_backup);
    let r = settings_file_report(SettingsFileState::Unreadable);
    assert_eq!(r.messages, vec!["cannot read settings file".to_string()]);
    let r = settings_file_report(SettingsFileState::Valid);
    assert_eq!(r.messages, vec!["settings OK".to_string()]);
    assert!(!r.restore_backup);
    for b in [BackupState::Missing, BackupState::Unreadable, BackupState::Corrupted] {
        let r = settings_file_report(SettingsFileState::Corrupted(b));
        assert_eq!(r.messages, vec!["settings file corrupted".to_string()]);
        assert!(!r.restore_backup);
    }
    let r = settings_file_report(SettingsFileState::Corrupted(BackupState::Valid));
    assert_eq!(
        r.messages,
        vec![
            "settings file corrupted".to_string(),
            "restored settings from backup".to_string()
        ]
    );
    assert!(r.restore_backup);
}

fn disk(holds: bool, bytes: u64, mount: &str) -> DiskInfo {
    DiskInfo { holds_data_dir: holds, available_bytes: bytes, mount_point: mount.to_string() }
}

#[test]
fn low_disk_warning_for_first_matching_disk() {
    let mb = 1024 * 1024;
    let disks = vec![disk(false, 0, "/boot"), disk(true, 499 * mb + mb - 1, "/"), disk(true, 0, "/home")];
    assert_eq!(
        disk_space_message(&disks),
        Some("low disk space: 499MB free on /".to_string())
    );
    let disks = vec![disk(true, 500 * mb, "/"), disk(true, 0, "/home")];
    assert_eq!(disk_space_message(&disks), None);
    let disks = vec![disk(false, 0, "/boot")];
    assert_eq!(disk_space_message(&disks), None);
    assert_eq!(disk_space_message(&vec![]), None);
}

#[test]
fn health_report_combines_file_and_disk() {
    let disks = vec![disk(true, 3 * 1024 * 1024, "/data")];
    let r = health_report(SettingsFileState::Valid, Some(&disks));
    assert_eq!(
        r.messages,
        vec!["settings OK".to_string(), "low disk space: 3MB free on /data".to_string()]
    );
    let r = health_report(SettingsFileState::Valid, None);
    assert_eq!(r.messages, vec!["settings OK".to_string()]);
    let r = health_report(SettingsFileState::Corrupted(BackupState::Valid), Some(&vec![]));
    assert_eq!(r.messages.len(), 2);
    assert!(r.restore_backup);
}

#[test]
fn white_space_set_matches_std_for_every_char() {
    let mut count = 0;
    for n in 0..=0x10FFFFu32 {
        if let Some(c) = char::from_u32(n) {
            assert_eq!(is_white_space(c), c.is_whitespace(), "U+{:04X}", n);
            if is_white_space(c) {
                count += 1;
            }
        }
    }
    assert_eq!(count, 25);
}
