//! What each settings module reports about itself: the problems found by
//! validation, a one-line summary, and its statistics as JSON.

use vstd::prelude::*;

use crate::json::{
    entries_view, json_bool, json_bool_of, json_object, json_object_of, json_string,
    json_string_of, json_u64, json_u64_of,
};
use crate::text::{
    decimal, has_prefix, list_text, push_decimal, push_list, starts_with, trim_spec, trim_text,
};
use crate::types::{
    AdblockSettings, CacheSettings, ClipboardSettings, GeneralSettings, Language, Theme,
};

verus! {

// ---------------------------------------------------------------- names

impl Theme {
    /// The name of the theme in settings files: "light", "dark" or "system".
    pub open spec fn spec_key(self) -> Seq<char> {
        match self {
            Theme::Light => "light"@,
            Theme::Dark => "dark"@,
            Theme::System => "system"@,
        }
    }

    /// The name of the variant, as `Debug` prints it: "Light", "Dark" or "System".
    pub open spec fn spec_debug_name(self) -> Seq<char> {
        match self {
            Theme::Light => "Light"@,
            Theme::Dark => "Dark"@,
            Theme::System => "System"@,
        }
    }

    /// The name of the theme in settings files.
    pub fn key(&self) -> (r: &'static str)
        ensures
            r@ == self.spec_key(),
    {
        match self {
            Theme::Light => "light",
            Theme::Dark => "dark",
            Theme::System => "system",
        }
    }

    /// The name of the variant, as `Debug` prints it.
    pub fn debug_name(&self) -> (r: &'static str)
        ensures
            r@ == self.spec_debug_name(),
    {
        match self {
            Theme::Light => "Light",
            Theme::Dark => "Dark",
            Theme::System => "System",
        }
    }
}

impl Language {
    /// The name of the language in settings files: "zh" or "en".
    pub open spec fn spec_key(self) -> Seq<char> {
        match self {
            Language::Zh => "zh"@,
            Language::En => "en"@,
        }
    }

    /// The name of the variant, as `Debug` prints it: "Zh" or "En".
    pub open spec fn spec_debug_name(self) -> Seq<char> {
        match self {
            Language::Zh => "Zh"@,
            Language::En => "En"@,
        }
    }

    /// The name of the language in settings files.
    pub fn key(&self) -> (r: &'static str)
        ensures
            r@ == self.spec_key(),
    {
        match self {
            Language::Zh => "zh",
            Language::En => "en",
        }
    }

    /// The name of the variant, as `Debug` prints it.
    pub fn debug_name(&self) -> (r: &'static str)
        ensures
            r@ == self.spec_debug_name(),
    {
        match self {
            Language::Zh => "Zh",
            Language::En => "En",
        }
    }
}

// ---------------------------------------------------------------- ad blocking

/// A custom rule, once trimmed, is accepted when it is empty (it is then
/// ignored) or begins with "||", "##" or "/".
pub open spec fn rule_accepted(trimmed: Seq<char>) -> bool {
    ||| trimmed.len() == 0
    ||| starts_with(trimmed, "||"@)
    ||| starts_with(trimmed, "##"@)
    ||| starts_with(trimmed, "/"@)
}

/// The message for a trimmed rule that is not accepted.
pub open spec fn rule_error(trimmed: Seq<char>) -> Seq<char> {
    "invalid rule format: '"@ + trimmed + "'"@
}

/// The problems found in a list of custom rules: one message per rule that is
/// not accepted once trimmed, in the order of the rules.
pub open spec fn adblock_errors(rules: Seq<Seq<char>>) -> Seq<Seq<char>>
    decreases rules.len(),
{
    if rules.len() == 0 {
        Seq::empty()
    } else {
        let prev = adblock_errors(rules.drop_last());
        let t = trim_spec(rules.last());
        if rule_accepted(t) {
            prev
        } else {
            prev.push(rule_error(t))
        }
    }
}

/// The summary of the ad-blocking settings.
pub open spec fn adblock_summary(enabled: bool, rule_count: nat) -> Seq<char> {
    if enabled {
        "enabled, "@ + decimal(rule_count) + " custom rules"@
    } else {
        "disabled"@
    }
}

/// Checks one rule that has already been trimmed: `None` where it is accepted,
/// else the message that reports it.
pub fn check_trimmed_rule(trimmed: &str) -> (r: Option<String>)
    ensures
        r is None <==> rule_accepted(trimmed@),
        r matches Some(m) ==> m@ == rule_error(trimmed@),
{
    let empty = trimmed.unicode_len() == 0;
    if empty || has_prefix(trimmed, "||") || has_prefix(trimmed, "##") || has_prefix(trimmed, "/") {
        None
    } else {
        let mut m = String::from_str("invalid rule format: '");
        m.append(trimmed);
        m.append("'");
        Some(m)
    }
}

/// The statistics of the ad-blocking settings: whether it is on, and how many
/// custom rules there are.
pub open spec fn adblock_stats_entries(enabled: bool, rule_count: u64) -> Seq<
    (Seq<char>, serde_json::Value),
> {
    seq![("enabled"@, json_bool_of(enabled)), ("rule_count"@, json_u64_of(rule_count))]
}

impl AdblockSettings {
    /// The problems of the custom rules, one message per rejected rule.
    pub fn validate(&self) -> (r: Vec<String>)
        ensures
            r.deep_view() == adblock_errors(self.custom_rules.deep_view()),
    {
        let mut errors: Vec<String> = Vec::new();
        let mut i: usize = 0;
        while i < self.custom_rules.len()
            invariant
                0 <= i <= self.custom_rules.len(),
                errors.deep_view() == adblock_errors(self.custom_rules.deep_view().take(i as int)),
            decreases self.custom_rules.len() - i,
        {
            let ghost rules = self.custom_rules.deep_view();
            let trimmed = trim_text(self.custom_rules[i].as_str());
            let found = check_trimmed_rule(trimmed.as_str());
            proof {
                assert(rules.take(i + 1).drop_last() =~= rules.take(i as int));
                assert(rules.take(i + 1).last() == self.custom_rules[i as int]@);
            }
            match found {
                Some(m) => {
                    errors.push(m);
                    proof {
                        assert(errors.deep_view() =~= adblock_errors(rules.take(i as int)).push(
                            m@,
                        ));
                    }
                },
                None => {},
            }
            i = i + 1;
        }
        proof {
            assert(self.custom_rules.deep_view().take(i as int) =~= self.custom_rules.deep_view());
        }
        errors
    }

    /// "enabled, N custom rules" when on, "disabled" when off.
    pub fn summary(&self) -> (r: String)
        ensures
            r@ == adblock_summary(self.enabled, self.custom_rules@.len()),
    {
        if self.enabled {
            let mut s = String::from_str("enabled, ");
            push_decimal(&mut s, self.custom_rules.len() as u64);
            s.append(" custom rules");
            s
        } else {
            String::from_str("disabled")
        }
    }

    /// `{"enabled": .., "rule_count": ..}`.
    pub fn stats(&self) -> (r: serde_json::Value)
        ensures
            r == json_object_of(
                adblock_stats_entries(self.enabled, self.custom_rules@.len() as u64),
            ),
    {
        let mut entries: Vec<(String, serde_json::Value)> = Vec::new();
        entries.push((String::from_str("enabled"), json_bool(self.enabled)));
        entries.push((String::from_str("rule_count"), json_u64(self.custom_rules.len() as u64)));
        proof {
            assert(entries_view(entries@) =~= adblock_stats_entries(self.enabled, self.custom_rules@.len() as u64));
        }
        json_object(entries)
    }
}

// ---------------------------------------------------------------- cache

/// Smallest cache size limit accepted, in MB.
pub const CACHE_MIN_MB: u32 = 50;

/// Largest cache size limit accepted, in MB.
pub const CACHE_MAX_MB: u32 = 1000;

/// The problems of a cache size limit: none inside 50..=1000 MB, else one message.
pub open spec fn cache_errors(max_size_mb: u32) -> Seq<Seq<char>> {
    if max_size_mb < CACHE_MIN_MB || max_size_mb > CACHE_MAX_MB {
        seq!["cache size "@ + decimal(max_size_mb as nat) + "MB out of range (50-1000)"@]
    } else {
        Seq::empty()
    }
}

/// The summary of the cache settings.
pub open spec fn cache_summary(enabled: bool, max_size_mb: u32) -> Seq<char> {
    if enabled {
        "enabled, "@ + decimal(max_size_mb as nat) + "MB limit"@
    } else {
        "disabled"@
    }
}

impl CacheSettings {
    /// The problems of the size limit.
    pub fn validate(&self) -> (r: Vec<String>)
        ensures
            r.deep_view() == cache_errors(self.max_size_mb),
    {
        let mut errors: Vec<String> = Vec::new();
        if self.max_size_mb < CACHE_MIN_MB || self.max_size_mb > CACHE_MAX_MB {
            let mut m = String::from_str("cache size ");
            push_decimal(&mut m, self.max_size_mb as u64);
            m.append("MB out of range (50-1000)");
            errors.push(m);
            proof {
                assert(errors.deep_view() =~= cache_errors(self.max_size_mb));
            }
        } else {
            proof {
                assert(errors.deep_view() =~= cache_errors(self.max_size_mb));
            }
        }
        errors
    }

    /// "enabled, NMB limit" when on, "disabled" when off.
    pub fn summary(&self) -> (r: String)
        ensures
            r@ == cache_summary(self.enabled, self.max_size_mb),
    {
        if self.enabled {
            let mut s = String::from_str("enabled, ");
            push_decimal(&mut s, self.max_size_mb as u64);
            s.append("MB limit");
            s
        } else {
            String::from_str("disabled")
        }
    }
}

// ---------------------------------------------------------------- clipboard

/// The numbers of clipboard records that may be kept.
pub open spec fn allowed_max_records_spec() -> Seq<u32> {
    seq![500u32, 1000u32, 2000u32, 5000u32]
}

/// The numbers of days clipboard records may be kept (0: no limit).
pub open spec fn allowed_retention_days_spec() -> Seq<u32> {
    seq![7u32, 14u32, 30u32, 0u32]
}

/// The numbers of clipboard records that may be kept.
pub fn allowed_max_records() -> (r: Vec<u32>)
    ensures
        r@ == allowed_max_records_spec(),
{
    let mut v: Vec<u32> = Vec::new();
    v.push(500);
    v.push(1000);
    v.push(2000);
    v.push(5000);
    proof {
        assert(v@ =~= allowed_max_records_spec());
    }
    v
}

/// The numbers of days clipboard records may be kept (0: no limit).
pub fn allowed_retention_days() -> (r: Vec<u32>)
    ensures
        r@ == allowed_retention_days_spec(),
{
    let mut v: Vec<u32> = Vec::new();
    v.push(7);
    v.push(14);
    v.push(30);
    v.push(0);
    proof {
        assert(v@ =~= allowed_retention_days_spec());
    }
    v
}

/// The message for a record count that is not allowed.
pub open spec fn max_records_error(n: u32) -> Seq<char> {
    "max records "@ + decimal(n as nat) + " not in allowed values: "@ + list_text(
        allowed_max_records_spec(),
    )
}

/// The message for a retention that is not allowed.
pub open spec fn retention_days_error(n: u32) -> Seq<char> {
    "retention days "@ + decimal(n as nat) + " not in allowed values: "@ + list_text(
        allowed_retention_days_spec(),
    )
}

/// The problems of the clipboard settings: one message for a record count
/// outside 500, 1000, 2000, 5000, then one for a retention outside 7, 14, 30, 0.
pub open spec fn clipboard_errors(max_records: u32, retention_days: u32) -> Seq<Seq<char>> {
    let a: Seq<Seq<char>> = if allowed_max_records_spec().contains(max_records) {
        Seq::empty()
    } else {
        seq![max_records_error(max_records)]
    };
    let b: Seq<Seq<char>> = if allowed_retention_days_spec().contains(retention_days) {
        Seq::empty()
    } else {
        seq![retention_days_error(retention_days)]
    };
    a + b
}

/// The summary of the clipboard settings.
pub open spec fn clipboard_summary(enabled: bool, max_records: u32) -> Seq<char> {
    if enabled {
        "enabled, max "@ + decimal(max_records as nat) + " records"@
    } else {
        "disabled"@
    }
}

/// Whether `x` is one of `xs`.
fn contains_u32(xs: &Vec<u32>, x: u32) -> (r: bool)
    ensures
        r == xs@.contains(x),
{
    let mut i: usize = 0;
    while i < xs.len()
        invariant
            0 <= i <= xs.len(),
            forall|k: int| 0 <= k < i ==> xs@[k] != x,
        decreases xs.len() - i,
    {
        if xs[i] == x {
            return true;
        }
        i = i + 1;
    }
    false
}

/// The statistics of the clipboard settings: whether it is on, the record
/// count and the retention in days.
pub open spec fn clipboard_stats_entries(enabled: bool, max_records: u32, retention_days: u32) -> Seq<
    (Seq<char>, serde_json::Value),
> {
    seq![
        ("enabled"@, json_bool_of(enabled)),
        ("max_records"@, json_u64_of(max_records as u64)),
        ("retention_days"@, json_u64_of(retention_days as u64)),
    ]
}

impl ClipboardSettings {
    /// The problems of the record count and of the retention.
    pub fn validate(&self) -> (r: Vec<String>)
        ensures
            r.deep_view() == clipboard_errors(self.max_records, self.retention_days),
    {
        let mut errors: Vec<String> = Vec::new();
        let valid = allowed_max_records();
        if !contains_u32(&valid, self.max_records) {
            let mut m = String::from_str("max records ");
            push_decimal(&mut m, self.max_records as u64);
            m.append(" not in allowed values: ");
            push_list(&mut m, &valid);
            errors.push(m);
        }
        let valid_days = allowed_retention_days();
        if !contains_u32(&valid_days, self.retention_days) {
            let mut m = String::from_str("retention days ");
            push_decimal(&mut m, self.retention_days as u64);
            m.append(" not in allowed values: ");
            push_list(&mut m, &valid_days);
            errors.push(m);
        }
        proof {
            assert(errors.deep_view() =~= clipboard_errors(self.max_records, self.retention_days));
        }
        errors
    }

    /// "enabled, max N records" when on, "disabled" when off.
    pub fn summary(&self) -> (r: String)
        ensures
            r@ == clipboard_summary(self.enabled, self.max_records),
    {
        if self.enabled {
            let mut s = String::from_str("enabled, max ");
            push_decimal(&mut s, self.max_records as u64);
            s.append(" records");
            s
        } else {
            String::from_str("disabled")
        }
    }

    /// `{"enabled": .., "max_records": .., "retention_days": ..}`.
    pub fn stats(&self) -> (r: serde_json::Value)
        ensures
            r == json_object_of(
                clipboard_stats_entries(self.enabled, self.max_records, self.retention_days),
            ),
    {
        let mut entries: Vec<(String, serde_json::Value)> = Vec::new();
        entries.push((String::from_str("enabled"), json_bool(self.enabled)));
        entries.push((String::from_str("max_records"), json_u64(self.max_records as u64)));
        entries.push((String::from_str("retention_days"), json_u64(self.retention_days as u64)));
        proof {
            assert(entries_view(entries@) =~= clipboard_stats_entries(self.enabled, self.max_records, self.retention_days));
        }
        json_object(entries)
    }
}

// ---------------------------------------------------------------- general

/// The summary of the appearance settings.
pub open spec fn general_summary(theme: Theme, language: Language) -> Seq<char> {
    "theme="@ + theme.spec_debug_name() + ", lang="@ + language.spec_debug_name()
}

/// The statistics of the appearance settings: the names of the theme and of
/// the language used in settings files.
pub open spec fn general_stats_entries(theme: Theme, language: Language) -> Seq<
    (Seq<char>, serde_json::Value),
> {
    seq![
        ("theme"@, json_string_of(theme.spec_key())),
        ("language"@, json_string_of(language.spec_key())),
    ]
}

impl GeneralSettings {
    /// No problems: every theme and language is valid.
    pub fn validate(&self) -> (r: Vec<String>)
        ensures
            r@.len() == 0,
    {
        Vec::new()
    }

    /// "theme=T, lang=L" with the variant names.
    pub fn summary(&self) -> (r: String)
        ensures
            r@ == general_summary(self.theme, self.language),
    {
        let mut s = String::from_str("theme=");
        s.append(self.theme.debug_name());
        s.append(", lang=");
        s.append(self.language.debug_name());
        s
    }

    /// `{"theme": .., "language": ..}` with the names used in settings files.
    pub fn stats(&self) -> (r: serde_json::Value)
        ensures
            r == json_object_of(
                general_stats_entries(self.theme, self.language),
            ),
    {
        let mut entries: Vec<(String, serde_json::Value)> = Vec::new();
        entries.push((String::from_str("theme"), json_string(String::from_str(self.theme.key()))));
        entries.push(
            (String::from_str("language"), json_string(String::from_str(self.language.key()))),
        );
        proof {
            assert(entries_view(entries@) =~= general_stats_entries(self.theme, self.language));
        }
        json_object(entries)
    }
}

} // verus!
