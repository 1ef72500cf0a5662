//! Load outcome reporting: clean, migrated, repaired, or which fallback
//! applied.
//!
//! Pure classification over the persisted JSON text and the parsed
//! settings, so the UI can tell "migrated from an older version" apart
//! from "reset to defaults". Reading the file stays with the application
//! layer.

use vstd::prelude::*;
use crate::settings::compare::{same_settings, settings_equal};
use crate::settings::model::{AppSettings, is_default};
use crate::settings::normalize::normalized_from;
use crate::text::{text_eq, texts};

verus! {

/// Why a load fell back to defaults instead of using the file.
#[derive(Debug, Clone, Copy, PartialEq, Eq, Structural)]
pub enum FallbackReason {
    /// No file yet (first run).
    Missing,
    /// The file exists but cannot be read (permissions, lock, I/O).
    Unreadable,
    /// Valid prefix cut short: crash or kill mid-write.
    Truncated,
    /// Malformed JSON syntax.
    InvalidJson,
    /// Well-formed JSON with wrong types or unknown enum discriminants.
    InvalidTypes,
}

/// How a load resolved: clean, repaired, or defaulted.
#[derive(Debug, Clone, Copy, PartialEq, Eq, Structural)]
pub enum LoadOutcome {
    /// Every key present and `normalize` changed nothing.
    Clean,
    /// An older file: one or more expected keys absent, filled with defaults.
    Migrated,
    /// All keys present but `normalize` clamped or repaired a value.
    Repaired,
    /// The file was unusable; normalized defaults were returned.
    Fallback(FallbackReason),
}

/// The status-line text of an outcome.
pub open spec fn description(o: LoadOutcome) -> Seq<char> {
    match o {
        LoadOutcome::Clean => "loaded cleanly"@,
        LoadOutcome::Migrated => "migrated from an older version"@,
        LoadOutcome::Repaired => "repaired out-of-range values"@,
        LoadOutcome::Fallback(FallbackReason::Missing) => "no settings file found"@,
        LoadOutcome::Fallback(FallbackReason::Unreadable) => "could not be read"@,
        LoadOutcome::Fallback(FallbackReason::Truncated) => "was truncated mid-write"@,
        LoadOutcome::Fallback(FallbackReason::InvalidJson) => "contained invalid JSON"@,
        LoadOutcome::Fallback(FallbackReason::InvalidTypes) => "contained invalid value types"@,
    }
}

impl LoadOutcome {
    /// Whether the file was ignored in favor of defaults.
    pub fn is_fallback(self) -> (b: bool)
        ensures
            b == (self is Fallback),
    {
        match self {
            LoadOutcome::Fallback(_) => true,
            _ => false,
        }
    }

    /// Short human-readable cause for status lines.
    pub fn describe(self) -> (s: &'static str)
        ensures
            s@ == description(self),
    {
        match self {
            LoadOutcome::Clean => "loaded cleanly",
            LoadOutcome::Migrated => "migrated from an older version",
            LoadOutcome::Repaired => "repaired out-of-range values",
            LoadOutcome::Fallback(FallbackReason::Missing) => "no settings file found",
            LoadOutcome::Fallback(FallbackReason::Unreadable) => "could not be read",
            LoadOutcome::Fallback(FallbackReason::Truncated) => "was truncated mid-write",
            LoadOutcome::Fallback(FallbackReason::InvalidJson) => "contained invalid JSON",
            LoadOutcome::Fallback(FallbackReason::InvalidTypes) => "contained invalid value types",
        }
    }
}

/// A load plus the reason, so the UI can tell "migrated" from "reset".
#[derive(Debug, Clone)]
pub struct LoadReport {
    pub settings: AppSettings,
    pub outcome: LoadOutcome,
    /// Raw I/O or parser message for logs; the UI prefers `describe`.
    pub detail: Option<String>,
}

/// Every persisted top-level key. Absence means an older file.
pub const EXPECTED_KEYS: [&'static str; 41] = [
    "TriggerVk",
    "TriggerModifiers",
    "TriggerModifierSide",
    "TriggerDelayMilliseconds",
    "TriggerTimeoutMilliseconds",
    "DoubleClickToTrigger",
    "MiddleClickToTrigger",
    "Keybinds",
    "RadialSlots",
    "CenterTarget",
    "LaunchAtLogin",
    "AppearanceMode",
    "RadialEnabled",
    "CursorInteractionEnabled",
    "RadialOuterRadius",
    "RadialInnerRadius",
    "PreviewEnabled",
    "DragSnapEnabled",
    "DragSnapThreshold",
    "RestorePreDragFrameOnSnapCancel",
    "StashPersistenceEnabled",
    "MonitorMoveSizePolicy",
    "GlobalScreenPadding",
    "ScreenPaddingLeft",
    "ScreenPaddingTop",
    "ScreenPaddingRight",
    "ScreenPaddingBottom",
    "ExcludedExecutablePaths",
    "ExcludedProcessNames",
    "StashEdgePeek",
    "StashHitZone",
    "StashRevealDelayMilliseconds",
    "StashRecords",
    "PreviewPadding",
    "PreviewCornerRadius",
    "PreviewBorderWidth",
    "AccentColor",
    "RadialSectorFill",
    "RadialSectorStroke",
    "RadialRingFill",
    "PreviewBorderColor",
];

/// The factory defaults, normalized.
pub open spec fn is_normalized_default(s: AppSettings) -> bool {
    exists|d: AppSettings| is_default(d) && normalized_from(d, s)
}

/// Factory defaults after normalization.
pub fn normalized_defaults() -> (s: AppSettings)
    ensures
        is_normalized_default(s),
{
    let mut s = AppSettings::default();
    let ghost d = s;
    s.normalize();
    assert(is_default(d) && normalized_from(d, s));
    s
}

/// A report that falls back to normalized defaults for `reason`.
pub fn fallback(reason: FallbackReason, detail: Option<String>) -> (r: LoadReport)
    ensures
        r.outcome == LoadOutcome::Fallback(reason),
        r.detail == detail,
        is_normalized_default(r.settings),
{
    LoadReport { settings: normalized_defaults(), outcome: LoadOutcome::Fallback(reason), detail }
}

/// The fallback for a parse error, from the parser's own classification:
/// input cut short means a truncated write, well-formed input of the wrong
/// shape means invalid types, anything else is invalid syntax.
pub fn reason_for_error_kind(is_eof: bool, is_data: bool) -> (r: FallbackReason)
    ensures
        r == (if is_eof {
            FallbackReason::Truncated
        } else if is_data {
            FallbackReason::InvalidTypes
        } else {
            FallbackReason::InvalidJson
        }),
{
    if is_eof {
        FallbackReason::Truncated
    } else if is_data {
        FallbackReason::InvalidTypes
    } else {
        FallbackReason::InvalidJson
    }
}

/// `serde_json::Error`, carried through as an opaque value.
#[verifier::external_type_specification]
#[verifier::external_body]
pub struct ExJsonError(serde_json::Error);

/// What `serde_json::Error::is_eof` answers for a parse error: whether the
/// input ended early.
pub uninterp spec fn parse_error_is_eof(error: serde_json::Error) -> bool;

/// What `serde_json::Error::is_data` answers for a parse error: whether the
/// input was well-formed JSON of the wrong shape.
pub uninterp spec fn parse_error_is_data(error: serde_json::Error) -> bool;

/// Whether a parse error was caused by the input ending early.
///
/// Trusted: calls `serde_json::Error::is_eof`, which compares the error's
/// category and so depends on the error alone; the contract names that
/// answer and says nothing more about it.
#[verifier::external_body]
fn error_is_eof(error: &serde_json::Error) -> (b: bool)
    ensures
        b == parse_error_is_eof(*error),
{
    error.is_eof()
}

/// Whether a parse error was caused by well-formed input of the wrong
/// shape.
///
/// Trusted: calls `serde_json::Error::is_data`, which compares the error's
/// category and so depends on the error alone; the contract names that
/// answer and says nothing more about it.
#[verifier::external_body]
fn error_is_data(error: &serde_json::Error) -> (b: bool)
    ensures
        b == parse_error_is_data(*error),
{
    error.is_data()
}

/// The fallback reason for a settings parse error (see
/// [`reason_for_error_kind`]): a file that ends early is truncated, valid
/// JSON of the wrong shape has invalid types, anything else is invalid
/// JSON. A parse error never means the file was missing or unreadable.
pub fn reason_for_parse_error(error: &serde_json::Error) -> (r: FallbackReason)
    ensures
        r == (if parse_error_is_eof(*error) {
            FallbackReason::Truncated
        } else if parse_error_is_data(*error) {
            FallbackReason::InvalidTypes
        } else {
            FallbackReason::InvalidJson
        }),
{
    let eof = error_is_eof(error);
    let data = error_is_data(error);
    reason_for_error_kind(eof, data)
}

/// What parsing a text as JSON yields at the top level: the keys of the
/// object, or `None` when the text is not a JSON object.
pub uninterp spec fn json_object_keys(text: Seq<char>) -> Option<Seq<Seq<char>>>;

/// The top-level keys of a JSON object text.
///
/// Trusted: parses with `serde_json::from_str::<serde_json::Value>` and, for
/// an object, collects its keys. The result is a function of the text
/// alone; the contract names it and says nothing more.
#[verifier::external_body]
fn top_level_keys(text: &str) -> (r: Option<Vec<String>>)
    ensures
        match r {
            Some(v) => json_object_keys(text@) == Some(texts(v@)),
            None => json_object_keys(text@) is None,
        },
{
    match serde_json::from_str::<serde_json::Value>(text) {
        Ok(serde_json::Value::Object(map)) => Some(map.keys().cloned().collect()),
        Ok(serde_json::Value::Array(_)) => None,
        Ok(serde_json::Value::String(_)) => None,
        Ok(serde_json::Value::Number(_)) => None,
        Ok(serde_json::Value::Bool(_)) => None,
        Ok(serde_json::Value::Null) => None,
        Err(_) => None,
    }
}

/// Some expected key is absent from `keys`.
pub open spec fn expected_key_missing(keys: Seq<Seq<char>>) -> bool {
    exists|i: int| 0 <= i < 41 && !keys.contains((#[trigger] EXPECTED_KEYS[i])@)
}

/// Classification of a parsed file: missing keys mean an older version
/// (migrated); otherwise a difference made by `normalize` means repaired.
pub open spec fn outcome_of(
    keys: Option<Seq<Seq<char>>>,
    parsed: AppSettings,
    normalized: AppSettings,
) -> LoadOutcome {
    if keys matches Some(k) && expected_key_missing(k) {
        LoadOutcome::Migrated
    } else if !same_settings(normalized, parsed) {
        LoadOutcome::Repaired
    } else {
        LoadOutcome::Clean
    }
}

fn key_present(keys: &[String], key: &str) -> (b: bool)
    ensures
        b == texts(keys@).contains(key@),
{
    let mut i: usize = 0;
    while i < keys.len()
        invariant
            i <= keys.len(),
            forall|j: int| 0 <= j < i ==> (#[trigger] keys@[j])@ != key@,
        decreases keys.len() - i,
    {
        if text_eq(keys[i].as_str(), key) {
            assert(texts(keys@)[i as int] == key@);
            return true;
        }
        i = i + 1;
    }
    assert forall|j: int| 0 <= j < texts(keys@).len() implies texts(keys@)[j] != key@ by {
        assert(texts(keys@)[j] == keys@[j]@);
    }
    false
}

fn some_key_missing(keys: &[String]) -> (b: bool)
    ensures
        b == expected_key_missing(texts(keys@)),
{
    let mut i: usize = 0;
    while i < 41
        invariant
            i <= 41,
            forall|j: int| 0 <= j < i ==> texts(keys@).contains((#[trigger] EXPECTED_KEYS[j])@),
        decreases 41 - i,
    {
        if !key_present(keys, EXPECTED_KEYS[i]) {
            return true;
        }
        i = i + 1;
    }
    false
}

/// Classify a parsed file from its top-level keys (see [`outcome_of`]).
pub fn outcome_for_keys(
    keys: &Option<Vec<String>>,
    parsed: &AppSettings,
    normalized: &AppSettings,
) -> (r: LoadOutcome)
    ensures
        r == outcome_of(
            match keys {
                Some(v) => Some(texts(v@)),
                None => None,
            },
            *parsed,
            *normalized,
        ),
{
    let migrated = match keys {
        Some(v) => some_key_missing(v.as_slice()),
        None => false,
    };
    if migrated {
        LoadOutcome::Migrated
    } else if !settings_equal(normalized, parsed) {
        LoadOutcome::Repaired
    } else {
        LoadOutcome::Clean
    }
}

/// Classify a successfully parsed file `text` (see [`outcome_of`]).
pub fn outcome_for(text: &str, parsed: &AppSettings, normalized: &AppSettings) -> (r: LoadOutcome)
    ensures
        r == outcome_of(json_object_keys(text@), *parsed, *normalized),
{
    let keys = top_level_keys(text);
    outcome_for_keys(&keys, parsed, normalized)
}

/// Reading back what was saved: a file that holds every expected key and
/// settings that are already normalized loads cleanly (process names that
/// are not stable aside, see `law_normalize_is_idempotent`).
pub proof fn law_saved_settings_load_clean(
    keys: Seq<Seq<char>>,
    o: AppSettings,
    saved: AppSettings,
    reloaded: AppSettings,
)
    requires
        !expected_key_missing(keys),
        normalized_from(o, saved),
        normalized_from(saved, reloaded),
        forall|i: int|
            0 <= i < saved.excluded_processes@.len()
                ==> crate::settings::exclusions::stable_process_name(
                (#[trigger] saved.excluded_processes@[i])@,
            ),
    ensures
        outcome_of(Some(keys), saved, reloaded) == LoadOutcome::Clean,
{
    crate::settings::compare::law_normalize_is_idempotent(o, saved, reloaded);
}

} // verus!
