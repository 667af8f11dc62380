//! The rules of the settings modules and of the health check, spelled out
//! with their literal texts and values for all inputs.

use vstd::prelude::*;

use crate::health::{
    health_messages, low_disk_message, settings_file_messages, DiskInfo, SettingsFileState,
};
use crate::health::{restores_backup, BackupState};
use crate::json::{json_bool_of, json_string_of, json_u64_of};
use crate::modules::{
    adblock_errors, adblock_stats_entries, adblock_summary, cache_errors, cache_summary,
    clipboard_errors, clipboard_stats_entries, clipboard_summary, general_stats_entries,
    general_summary,
};
use crate::text::{decimal, digit_char, joined_decimals, list_text, starts_with, trim_spec};
use crate::types::{is_default_app, AppSettings, Language, Theme};

verus! {

/// Adding a rule to the ad-blocking rules adds exactly one problem when the
/// trimmed rule is non-empty and begins with none of "||", "##" and "/": the
/// message `invalid rule format: '<trimmed rule>'`; otherwise it adds none.
pub proof fn lemma_adblock_rule_judged_by_its_prefix(rules: Seq<Seq<char>>, rule: Seq<char>)
    ensures
        adblock_errors(rules.push(rule)) == if trim_spec(rule).len() == 0 || starts_with(
            trim_spec(rule),
            "||"@,
        ) || starts_with(trim_spec(rule), "##"@) || starts_with(trim_spec(rule), "/"@) {
            adblock_errors(rules)
        } else {
            adblock_errors(rules).push("invalid rule format: '"@ + trim_spec(rule) + "'"@)
        },
{
    assert(rules.push(rule).drop_last() =~= rules);
    assert(rules.push(rule).last() == rule);
}

/// A single rule passes validation exactly when, once trimmed, it is empty or
/// begins with "||", "##" or "/".
pub proof fn lemma_single_rule_passes_iff_allowed_prefix(rule: Seq<char>)
    ensures
        adblock_errors(seq![rule]).len() == 0 <==> (trim_spec(rule).len() == 0 || starts_with(
            trim_spec(rule),
            "||"@,
        ) || starts_with(trim_spec(rule), "##"@) || starts_with(trim_spec(rule), "/"@)),
{
    let empty = Seq::<Seq<char>>::empty();
    assert(empty.push(rule) =~= seq![rule]);
    lemma_adblock_rule_judged_by_its_prefix(empty, rule);
    assert(adblock_errors(empty).len() == 0);
}

proof fn lemma_first_data_disk_decides(d: Seq<DiskInfo>, i: int)
    requires
        0 <= i < d.len(),
        d[i].holds_data_dir,
        forall|j: int| 0 <= j < i ==> !(#[trigger] d[j]).holds_data_dir,
    ensures
        low_disk_message(d) == if (d[i].available_bytes / 1024 / 1024) < 500 {
            Some(
                "low disk space: "@ + decimal((d[i].available_bytes / 1024 / 1024) as nat)
                    + "MB free on "@ + d[i].mount_point@,
            )
        } else {
            None
        },
    decreases i,
{
    if i > 0 {
        let t = d.drop_first();
        assert(!d[0].holds_data_dir);
        assert forall|j: int| 0 <= j < i - 1 implies !(#[trigger] t[j]).holds_data_dir by {
            assert(t[j] == d[j + 1]);
        }
        assert(t[i - 1] == d[i]);
        lemma_first_data_disk_decides(t, i - 1);
    }
}

proof fn lemma_no_data_disk_no_warning(d: Seq<DiskInfo>)
    requires
        forall|j: int| 0 <= j < d.len() ==> !(#[trigger] d[j]).holds_data_dir,
    ensures
        low_disk_message(d) == Option::<Seq<char>>::None,
    decreases d.len(),
{
    if d.len() > 0 {
        let t = d.drop_first();
        assert(!d[0].holds_data_dir);
        assert forall|j: int| 0 <= j < t.len() implies !(#[trigger] t[j]).holds_data_dir by {
            assert(t[j] == d[j + 1]);
        }
        lemma_no_data_disk_no_warning(t);
    }
}

/// The disk warning does not depend on the settings file. Whatever the state
/// of the settings file, the health check reports the settings-file messages,
/// followed by `low disk space: <N>MB free on <mount point>` exactly when the
/// first disk that holds the data directory has N < 500 whole MB free; with no
/// such disk, or with the data directory unknown, nothing follows.
pub proof fn lemma_disk_warning_follows_file_messages(
    state: SettingsFileState,
    d: Seq<DiskInfo>,
    i: int,
)
    ensures
        health_messages(state, None) == settings_file_messages(state),
        (forall|j: int| 0 <= j < d.len() ==> !(#[trigger] d[j]).holds_data_dir) ==> health_messages(
            state,
            Some(d),
        ) == settings_file_messages(state),
        (0 <= i < d.len() && d[i].holds_data_dir && (forall|j: int|
            0 <= j < i ==> !(#[trigger] d[j]).holds_data_dir)) ==> health_messages(state, Some(d))
            == if (d[i].available_bytes / 1024 / 1024) < 500 {
            settings_file_messages(state).push(
                "low disk space: "@ + decimal((d[i].available_bytes / 1024 / 1024) as nat)
                    + "MB free on "@ + d[i].mount_point@,
            )
        } else {
            settings_file_messages(state)
        },
{
    assert(health_messages(state, None) =~= settings_file_messages(state));
    if forall|j: int| 0 <= j < d.len() ==> !(#[trigger] d[j]).holds_data_dir {
        lemma_no_data_disk_no_warning(d);
        assert(health_messages(state, Some(d)) =~= settings_file_messages(state));
    }
    if 0 <= i < d.len() && d[i].holds_data_dir && (forall|j: int|
        0 <= j < i ==> !(#[trigger] d[j]).holds_data_dir) {
        lemma_first_data_disk_decides(d, i);
        if (d[i].available_bytes / 1024 / 1024) < 500 {
            assert(health_messages(state, Some(d)) =~= settings_file_messages(state).push(
                "low disk space: "@ + decimal((d[i].available_bytes / 1024 / 1024) as nat)
                    + "MB free on "@ + d[i].mount_point@,
            ));
        } else {
            assert(health_messages(state, Some(d)) =~= settings_file_messages(state));
        }
    }
}

proof fn lemma_allowed_lists_text()
    ensures
        list_text(seq![500u32, 1000u32, 2000u32, 5000u32]) == "[500, 1000, 2000, 5000]"@,
        list_text(seq![7u32, 14u32, 30u32, 0u32]) == "[7, 14, 30, 0]"@,
{
    reveal_strlit("[");
    reveal_strlit("]");
    reveal_strlit(", ");
    reveal_strlit("[500, 1000, 2000, 5000]");
    reveal_strlit("[7, 14, 30, 0]");
    reveal_with_fuel(decimal, 5);
    let a = seq![500u32, 1000u32, 2000u32, 5000u32];
    let a1 = a.drop_last().drop_last().drop_last();
    let a2 = a.drop_last().drop_last();
    let a3 = a.drop_last();
    assert(a1 =~= seq![500u32]);
    assert(a2 =~= seq![500u32, 1000u32]);
    assert(a3 =~= seq![500u32, 1000u32, 2000u32]);
    assert(decimal(500) =~= seq!['5', '0', '0']);
    assert(decimal(1000) =~= seq!['1', '0', '0', '0']);
    assert(decimal(2000) =~= seq!['2', '0', '0', '0']);
    assert(decimal(5000) =~= seq!['5', '0', '0', '0']);
    assert(joined_decimals(a1) == decimal(500));
    assert(joined_decimals(a2) == joined_decimals(a1) + ", "@ + decimal(1000));
    assert(joined_decimals(a3) == joined_decimals(a2) + ", "@ + decimal(2000));
    assert(joined_decimals(a) == joined_decimals(a3) + ", "@ + decimal(5000));
    let ta = seq!['[', '5', '0', '0', ',', ' ', '1', '0', '0', '0', ',', ' ', '2', '0', '0', '0', ',', ' ', '5', '0', '0', '0', ']'];
    assert(list_text(a) =~= ta);
    assert("[500, 1000, 2000, 5000]"@ =~= ta);
    let b = seq![7u32, 14u32, 30u32, 0u32];
    let b1 = b.drop_last().drop_last().drop_last();
    let b2 = b.drop_last().drop_last();
    let b3 = b.drop_last();
    assert(b1 =~= seq![7u32]);
    assert(b2 =~= seq![7u32, 14u32]);
    assert(b3 =~= seq![7u32, 14u32, 30u32]);
    assert(decimal(7) =~= seq!['7']);
    assert(decimal(14) =~= seq!['1', '4']);
    assert(decimal(30) =~= seq!['3', '0']);
    assert(decimal(0) =~= seq!['0']);
    assert(joined_decimals(b1) == decimal(7));
    assert(joined_decimals(b2) == joined_decimals(b1) + ", "@ + decimal(14));
    assert(joined_decimals(b3) == joined_decimals(b2) + ", "@ + decimal(30));
    assert(joined_decimals(b) == joined_decimals(b3) + ", "@ + decimal(0));
    let tb = seq!['[', '7', ',', ' ', '1', '4', ',', ' ', '3', '0', ',', ' ', '0', ']'];
    assert(list_text(b) =~= tb);
    assert("[7, 14, 30, 0]"@ =~= tb);
}

/// Each clipboard field is judged on its own: a record-count message exactly
/// when the count is not 500, 1000, 2000 or 5000, then a retention message
/// exactly when the retention is not 7, 14, 30 or 0 days.
pub proof fn lemma_clipboard_fields_judged_separately(max_records: u32, retention_days: u32)
    ensures
        clipboard_errors(max_records, retention_days) == (if max_records == 500 || max_records
            == 1000 || max_records == 2000 || max_records == 5000 {
            Seq::<Seq<char>>::empty()
        } else {
            seq![
                "max records "@ + decimal(max_records as nat)
                    + " not in allowed values: [500, 1000, 2000, 5000]"@,
            ]
        }) + (if retention_days == 7 || retention_days == 14 || retention_days == 30
            || retention_days == 0 {
            Seq::<Seq<char>>::empty()
        } else {
            seq![
                "retention days "@ + decimal(retention_days as nat)
                    + " not in allowed values: [7, 14, 30, 0]"@,
            ]
        }),
{
    crate::laws::lemma_clipboard_valid_iff_allowed(max_records, retention_days);
    lemma_allowed_lists_text();
    reveal_strlit(" not in allowed values: ");
    reveal_strlit(" not in allowed values: [500, 1000, 2000, 5000]");
    reveal_strlit(" not in allowed values: [7, 14, 30, 0]");
    reveal_strlit("[500, 1000, 2000, 5000]");
    reveal_strlit("[7, 14, 30, 0]");
    let a = crate::modules::allowed_max_records_spec();
    let b = crate::modules::allowed_retention_days_spec();
    let ma = max_records == 500 || max_records == 1000 || max_records == 2000 || max_records
        == 5000;
    let rb = retention_days == 7 || retention_days == 14 || retention_days == 30 || retention_days
        == 0;
    if a.contains(max_records) {
        let k = choose|k: int| 0 <= k < a.len() && a[k] == max_records;
        assert(ma);
    } else {
        if ma {
            if max_records == 500 { assert(a[0] == max_records); }
            if max_records == 1000 { assert(a[1] == max_records); }
            if max_records == 2000 { assert(a[2] == max_records); }
            if max_records == 5000 { assert(a[3] == max_records); }
        }
    }
    if b.contains(retention_days) {
        let k = choose|k: int| 0 <= k < b.len() && b[k] == retention_days;
        assert(rb);
    } else {
        if rb {
            if retention_days == 7 { assert(b[0] == retention_days); }
            if retention_days == 14 { assert(b[1] == retention_days); }
            if retention_days == 30 { assert(b[2] == retention_days); }
            if retention_days == 0 { assert(b[3] == retention_days); }
        }
    }
    assert(" not in allowed values: "@ + "[500, 1000, 2000, 5000]"@
        =~= " not in allowed values: [500, 1000, 2000, 5000]"@);
    assert(" not in allowed values: "@ + "[7, 14, 30, 0]"@
        =~= " not in allowed values: [7, 14, 30, 0]"@);
    let m1 = "max records "@ + decimal(max_records as nat) + " not in allowed values: "@
        + list_text(a);
    assert(m1 =~= "max records "@ + decimal(max_records as nat)
        + " not in allowed values: [500, 1000, 2000, 5000]"@);
    let m2 = "retention days "@ + decimal(retention_days as nat) + " not in allowed values: "@
        + list_text(b);
    assert(m2 =~= "retention days "@ + decimal(retention_days as nat)
        + " not in allowed values: [7, 14, 30, 0]"@);
}

/// Settings files and statistics name the theme by its lowercase variant name
/// and the language by its lowercase code; different values get different names.
pub proof fn lemma_keys_are_lowercase_names(t1: Theme, t2: Theme, l1: Language, l2: Language)
    ensures
        Theme::Light.spec_key() == "light"@,
        Theme::Dark.spec_key() == "dark"@,
        Theme::System.spec_key() == "system"@,
        Language::Zh.spec_key() == "zh"@,
        Language::En.spec_key() == "en"@,
        t1 != t2 ==> t1.spec_key() != t2.spec_key(),
        l1 != l2 ==> l1.spec_key() != l2.spec_key(),
{
    reveal_strlit("light");
    reveal_strlit("dark");
    reveal_strlit("system");
    reveal_strlit("zh");
    reveal_strlit("en");
    if t1 != t2 {
        assert(t1.spec_key().len() != t2.spec_key().len());
    }
    if l1 != l2 {
        assert(l1.spec_key()[0] != l2.spec_key()[0]);
    }
}

/// Summaries show the module's own numbers: the rule count, the cache limit in
/// MB and the record count, in decimal; the appearance summary shows the
/// variant names; a module that is off is "disabled".
pub proof fn lemma_summaries_spelled_out(
    enabled: bool,
    rule_count: nat,
    limit: u32,
    records: u32,
    t: Theme,
    l: Language,
)
    ensures
        adblock_summary(enabled, rule_count) == if enabled {
            "enabled, "@ + decimal(rule_count) + " custom rules"@
        } else {
            "disabled"@
        },
        cache_summary(enabled, limit) == if enabled {
            "enabled, "@ + decimal(limit as nat) + "MB limit"@
        } else {
            "disabled"@
        },
        clipboard_summary(enabled, records) == if enabled {
            "enabled, max "@ + decimal(records as nat) + " records"@
        } else {
            "disabled"@
        },
        general_summary(t, l) == "theme="@ + (match t {
            Theme::Light => "Light"@,
            Theme::Dark => "Dark"@,
            Theme::System => "System"@,
        }) + ", lang="@ + (match l {
            Language::Zh => "Zh"@,
            Language::En => "En"@,
        }),
{
}

/// Different numbers have different decimal texts, so summaries and messages of
/// different limits or counts differ.
pub proof fn lemma_decimal_injective(a: nat, b: nat)
    ensures
        decimal(a) == decimal(b) ==> a == b,
    decreases a + b,
{
    if decimal(a) == decimal(b) {
        lemma_decimal_shape(a);
        lemma_decimal_shape(b);
        let da = decimal(a);
        assert(da.last() == digit_char(a % 10));
        assert(decimal(b).last() == digit_char(b % 10));
        lemma_digit_char_injective(a % 10, b % 10);
        if a < 10 && b >= 10 {
            assert(decimal(b / 10).len() >= 1);
        } else if a >= 10 && b < 10 {
            assert(decimal(a / 10).len() >= 1);
        } else if a >= 10 && b >= 10 {
            assert(decimal(a / 10) =~= da.drop_last());
            assert(decimal(b / 10) =~= decimal(b).drop_last());
            lemma_decimal_injective(a / 10, b / 10);
        }
    }
}

proof fn lemma_decimal_shape(n: nat)
    ensures
        decimal(n).len() >= 1,
        decimal(n).last() == digit_char(n % 10),
    decreases n,
{
    if n >= 10 {
        lemma_decimal_shape(n / 10);
    }
}

proof fn lemma_digit_char_injective(a: nat, b: nat)
    requires
        a < 10,
        b < 10,
        digit_char(a) == digit_char(b),
    ensures
        a == b,
{
    let digits = seq!['0', '1', '2', '3', '4', '5', '6', '7', '8', '9'];
    assert(digits[a as int] == digit_char(a));
    assert(digits[b as int] == digit_char(b));
}

/// The cache size limit is accepted from 50 to 1000 MB inclusive; outside that
/// range one message reports it.
pub proof fn lemma_cache_range_spelled_out(max_size_mb: u32)
    ensures
        cache_errors(max_size_mb) == if 50 <= max_size_mb <= 1000 {
            Seq::<Seq<char>>::empty()
        } else {
            seq!["cache size "@ + decimal(max_size_mb as nat) + "MB out of range (50-1000)"@]
        },
{
}

/// The health check reports the state of the settings file in one message,
/// two when a corrupted file is restored from a valid backup, and restores
/// only then.
pub proof fn lemma_settings_file_messages_spelled_out(backup: BackupState)
    ensures
        settings_file_messages(SettingsFileState::Missing) == seq![
            "no settings file yet (will create defaults)"@,
        ],
        settings_file_messages(SettingsFileState::Unreadable) == seq![
            "cannot read settings file"@,
        ],
        settings_file_messages(SettingsFileState::Valid) == seq!["settings OK"@],
        settings_file_messages(SettingsFileState::Corrupted(backup)) == if backup
            == BackupState::Valid {
            seq!["settings file corrupted"@, "restored settings from backup"@]
        } else {
            seq!["settings file corrupted"@]
        },
        !restores_backup(SettingsFileState::Missing),
        !restores_backup(SettingsFileState::Unreadable),
        !restores_backup(SettingsFileState::Valid),
        restores_backup(SettingsFileState::Corrupted(backup)) <==> backup == BackupState::Valid,
{
}

/// The defaults: ad blocking on with no rules; cache on, 200 MB, hit rate
/// 0.0; clipboard on, 2000 records for 30 days, short entries ignored; light
/// theme, Chinese.
pub proof fn lemma_defaults_spelled_out(s: AppSettings)
    requires
        is_default_app(s),
    ensures
        s.adblock.enabled,
        s.adblock.custom_rules@.len() == 0,
        s.cache.enabled,
        s.cache.max_size_mb == 200,
        s.cache.hit_rate_1h_bits == 0,
        s.clipboard.enabled,
        s.clipboard.max_records == 2000,
        s.clipboard.retention_days == 30,
        s.clipboard.ignore_short,
        s.general.theme == Theme::Light,
        s.general.language == Language::Zh,
{
}

/// The statistics hold one entry per reported field, under the field's name:
/// "enabled" and "rule_count"; "enabled", "max_records" and "retention_days";
/// "theme" and "language" with the lowercase names. No two keys of one module
/// are equal.
pub proof fn lemma_stats_spelled_out(
    enabled: bool,
    rule_count: u64,
    records: u32,
    days: u32,
    t: Theme,
    l: Language,
)
    ensures
        adblock_stats_entries(enabled, rule_count) == seq![
            ("enabled"@, json_bool_of(enabled)),
            ("rule_count"@, json_u64_of(rule_count)),
        ],
        clipboard_stats_entries(enabled, records, days) == seq![
            ("enabled"@, json_bool_of(enabled)),
            ("max_records"@, json_u64_of(records as u64)),
            ("retention_days"@, json_u64_of(days as u64)),
        ],
        general_stats_entries(t, l) == seq![
            ("theme"@, json_string_of(
                match t {
                    Theme::Light => "light"@,
                    Theme::Dark => "dark"@,
                    Theme::System => "system"@,
                },
            )),
            ("language"@, json_string_of(
                match l {
                    Language::Zh => "zh"@,
                    Language::En => "en"@,
                },
            )),
        ],
        "enabled"@ != "rule_count"@,
        "enabled"@ != "max_records"@,
        "enabled"@ != "retention_days"@,
        "max_records"@ != "retention_days"@,
        "theme"@ != "language"@,
{
    reveal_strlit("enabled");
    reveal_strlit("rule_count");
    reveal_strlit("max_records");
    reveal_strlit("retention_days");
    reveal_strlit("theme");
    reveal_strlit("language");
    assert("enabled"@.len() != "rule_count"@.len());
    assert("enabled"@.len() != "max_records"@.len());
    assert("enabled"@.len() != "retention_days"@.len());
    assert("max_records"@.len() != "retention_days"@.len());
    assert("theme"@.len() != "language"@.len());
}

} // verus!
