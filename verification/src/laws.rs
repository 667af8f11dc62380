//! Properties of the settings rules that hold for all inputs.

use vstd::prelude::*;

use crate::modules::{
    adblock_errors, adblock_summary, cache_errors, cache_summary, clipboard_errors,
    clipboard_summary, rule_accepted, rule_error, CACHE_MAX_MB, CACHE_MIN_MB,
};
use crate::text::{starts_with, trim_spec, trim_start_spec, unicode_white_space};
use crate::health::{restores_backup, settings_file_messages, SettingsFileState};
use crate::types::{is_default_app, AppSettings};

verus! {

/// The default settings pass the validation of every module.
pub proof fn lemma_default_settings_pass_validation(s: AppSettings)
    requires
        is_default_app(s),
    ensures
        adblock_errors(s.adblock.custom_rules.deep_view()).len() == 0,
        cache_errors(s.cache.max_size_mb).len() == 0,
        clipboard_errors(s.clipboard.max_records, s.clipboard.retention_days).len() == 0,
{
    assert(s.adblock.custom_rules.deep_view().len() == 0);
    assert(crate::modules::allowed_max_records_spec()[2] == s.clipboard.max_records);
    assert(crate::modules::allowed_retention_days_spec()[2] == s.clipboard.retention_days);
}

/// The ad-blocking rules pass validation exactly when every rule, once
/// trimmed, is empty or begins with "||", "##" or "/".
pub proof fn lemma_adblock_valid_iff_all_rules_accepted(rules: Seq<Seq<char>>)
    ensures
        adblock_errors(rules).len() == 0 <==> forall|i: int|
            0 <= i < rules.len() ==> rule_accepted(#[trigger] trim_spec(rules[i])),
    decreases rules.len(),
{
    if rules.len() > 0 {
        let prev = rules.drop_last();
        lemma_adblock_valid_iff_all_rules_accepted(prev);
        if adblock_errors(rules).len() == 0 {
            assert forall|i: int| 0 <= i < rules.len() implies rule_accepted(
                #[trigger] trim_spec(rules[i]),
            ) by {
                if i < rules.len() - 1 {
                    assert(prev[i] == rules[i]);
                }
            }
        }
        if forall|i: int| 0 <= i < rules.len() ==> rule_accepted(#[trigger] trim_spec(rules[i])) {
            assert forall|i: int| 0 <= i < prev.len() implies rule_accepted(
                #[trigger] trim_spec(prev[i]),
            ) by {
                assert(prev[i] == rules[i]);
                assert(rule_accepted(trim_spec(rules[i])));
            }
            assert(rule_accepted(trim_spec(rules[rules.len() - 1])));
        }
    }
}

/// Validation of the ad-blocking rules reports no more problems than there
/// are rules, and each message names a rule that is rejected once trimmed.
pub proof fn lemma_adblock_errors_name_rejected_rules(rules: Seq<Seq<char>>)
    ensures
        adblock_errors(rules).len() <= rules.len(),
        forall|k: int|
            0 <= k < adblock_errors(rules).len() ==> exists|i: int|
                0 <= i < rules.len() && !rule_accepted(trim_spec(rules[i]))
                    && #[trigger] adblock_errors(rules)[k] == rule_error(trim_spec(rules[i])),
    decreases rules.len(),
{
    if rules.len() > 0 {
        let prev = rules.drop_last();
        lemma_adblock_errors_name_rejected_rules(prev);
        let errs = adblock_errors(rules);
        assert forall|k: int| 0 <= k < errs.len() implies exists|i: int|
            0 <= i < rules.len() && !rule_accepted(trim_spec(rules[i])) && #[trigger] errs[k]
                == rule_error(trim_spec(rules[i])) by {
            if k < adblock_errors(prev).len() {
                let i = choose|i: int|
                    0 <= i < prev.len() && !rule_accepted(trim_spec(prev[i]))
                        && #[trigger] adblock_errors(prev)[k] == rule_error(trim_spec(prev[i]));
                assert(prev[i] == rules[i]);
            } else {
                let last = rules.len() - 1;
                assert(rules[last] == rules.last());
            }
        }
    }
}

/// Trimming a text made only of whitespace leaves nothing.
pub proof fn lemma_blank_text_trims_to_empty(s: Seq<char>)
    requires
        forall|k: int| 0 <= k < s.len() ==> unicode_white_space(#[trigger] s[k]),
    ensures
        trim_spec(s).len() == 0,
    decreases s.len(),
{
    if s.len() > 0 {
        let t = s.drop_first();
        assert forall|k: int| 0 <= k < t.len() implies unicode_white_space(#[trigger] t[k]) by {
            assert(t[k] == s[k + 1]);
        }
        lemma_blank_text_trims_to_empty(t);
        assert(trim_start_spec(s) == trim_start_spec(t));
    } else {
        assert(trim_start_spec(s) == s);
    }
}

/// A rule made only of whitespace (the empty rule among them) is skipped:
/// adding it to the rules adds no problem.
pub proof fn lemma_blank_rules_are_skipped(rules: Seq<Seq<char>>, blank: Seq<char>)
    requires
        forall|k: int| 0 <= k < blank.len() ==> unicode_white_space(#[trigger] blank[k]),
    ensures
        adblock_errors(rules.push(blank)) == adblock_errors(rules),
{
    lemma_blank_text_trims_to_empty(blank);
    assert(rules.push(blank).drop_last() =~= rules);
    assert(rules.push(blank).last() == blank);
}

/// The cache size limit passes validation exactly when it lies in 50..=1000 MB.
pub proof fn lemma_cache_valid_iff_in_range(max_size_mb: u32)
    ensures
        cache_errors(max_size_mb).len() == 0 <==> CACHE_MIN_MB <= max_size_mb <= CACHE_MAX_MB,
{
}

/// The clipboard settings pass validation exactly when the record count is one
/// of 500, 1000, 2000, 5000 and the retention one of 7, 14, 30, 0 days.
pub proof fn lemma_clipboard_valid_iff_allowed(max_records: u32, retention_days: u32)
    ensures
        clipboard_errors(max_records, retention_days).len() == 0 <==> ((max_records == 500
            || max_records == 1000 || max_records == 2000 || max_records == 5000) && (
        retention_days == 7 || retention_days == 14 || retention_days == 30 || retention_days
            == 0)),
{
    let a = crate::modules::allowed_max_records_spec();
    let b = crate::modules::allowed_retention_days_spec();
    if max_records == 500 || max_records == 1000 || max_records == 2000 || max_records == 5000 {
        if max_records == 500 { assert(a[0] == max_records); }
        if max_records == 1000 { assert(a[1] == max_records); }
        if max_records == 2000 { assert(a[2] == max_records); }
        if max_records == 5000 { assert(a[3] == max_records); }
    }
    if retention_days == 7 || retention_days == 14 || retention_days == 30 || retention_days == 0 {
        if retention_days == 7 { assert(b[0] == retention_days); }
        if retention_days == 14 { assert(b[1] == retention_days); }
        if retention_days == 30 { assert(b[2] == retention_days); }
        if retention_days == 0 { assert(b[3] == retention_days); }
    }
}

/// A module that is switched on is summarised by a text that begins with
/// "enabled"; one that is off, by "disabled" alone.
pub proof fn lemma_summaries_show_module_state(enabled: bool, count: nat, limit: u32)
    ensures
        enabled ==> starts_with(adblock_summary(enabled, count), "enabled"@),
        enabled ==> starts_with(cache_summary(enabled, limit), "enabled"@),
        enabled ==> starts_with(clipboard_summary(enabled, limit), "enabled"@),
        !enabled ==> adblock_summary(enabled, count) == "disabled"@,
        !enabled ==> cache_summary(enabled, limit) == "disabled"@,
        !enabled ==> clipboard_summary(enabled, limit) == "disabled"@,
{
    reveal_strlit("enabled");
    reveal_strlit("enabled, ");
    reveal_strlit("enabled, max ");
    if enabled {
        let p = "enabled"@;
        let a = adblock_summary(enabled, count);
        assert(a.subrange(0, 7) =~= p);
        let c = cache_summary(enabled, limit);
        assert(c.subrange(0, 7) =~= p);
        let d = clipboard_summary(enabled, limit);
        assert(d.subrange(0, 7) =~= p);
    }
}

/// The health check restores the settings file from its backup exactly when
/// it reports doing so, and it always reports exactly one state of the
/// settings file first.
pub proof fn lemma_restore_is_reported(state: SettingsFileState)
    ensures
        settings_file_messages(state).len() >= 1,
        restores_backup(state) <==> settings_file_messages(state).last()
            == "restored settings from backup"@,
{
    reveal_strlit("no settings file yet (will create defaults)");
    reveal_strlit("cannot read settings file");
    reveal_strlit("settings OK");
    reveal_strlit("settings file corrupted");
    reveal_strlit("restored settings from backup");
    let restored = "restored settings from backup"@;
    assert("no settings file yet (will create defaults)"@.len() != restored.len());
    assert("cannot read settings file"@.len() != restored.len());
    assert("settings OK"@.len() != restored.len());
    assert("settings file corrupted"@.len() != restored.len());
}

} // verus!
