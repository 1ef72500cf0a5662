//! Edited-vs-saved commit decisions for the settings UI.
//!
//! Strategy is explicit revert-on-failure: the caller snapshots the last
//! saved settings, normalizes the edited candidate, and attempts the disk
//! write before touching the shared mirror or notifying services. On
//! success the candidate becomes the new saved value; on failure the UI
//! reverts to the snapshot so the edited control and the saved value stay
//! in sync. The failure message is returned both as `status` and as
//! `save_error` (sticky until the next success).

use vstd::prelude::*;
use crate::settings::model::AppSettings;
use crate::settings::normalize::normalized_from;
use crate::text::owned;

verus! {

/// Shown when the system or the filesystem rejects a settings save.
pub const SAVE_ERROR_MESSAGE: &'static str =
    "Could not save settings \u{2014} your change was reverted. Check file permissions and disk space.";

/// Outcome of one UI commit: what to display, what to share, what to say.
pub struct CommitReport {
    /// Value the UI must display next (candidate on success, revert on fail).
    pub settings: AppSettings,
    pub succeeded: bool,
    pub status: String,
    /// Sticky until the next successful save; `None` on success.
    pub save_error: Option<String>,
    /// True only on success when trigger fields actually changed.
    pub trigger_changed: bool,
}

/// The trigger binding or behavior differs between two settings values.
pub open spec fn trigger_differs(before: AppSettings, after: AppSettings) -> bool {
    ||| before.trigger_vk != after.trigger_vk
    ||| before.trigger_modifiers != after.trigger_modifiers
    ||| before.trigger_modifier_side != after.trigger_modifier_side
    ||| before.trigger_delay_ms != after.trigger_delay_ms
    ||| before.trigger_timeout_ms != after.trigger_timeout_ms
    ||| before.double_click_to_trigger != after.double_click_to_trigger
    ||| before.middle_click_to_trigger != after.middle_click_to_trigger
}

/// Whether the trigger binding or behavior differs; only such edits reset
/// in-flight trigger state.
pub fn trigger_changed(before: &AppSettings, after: &AppSettings) -> (b: bool)
    ensures
        b == trigger_differs(*before, *after),
{
    before.trigger_vk != after.trigger_vk || before.trigger_modifiers != after.trigger_modifiers
        || before.trigger_modifier_side != after.trigger_modifier_side || before.trigger_delay_ms
        != after.trigger_delay_ms || before.trigger_timeout_ms != after.trigger_timeout_ms
        || before.double_click_to_trigger != after.double_click_to_trigger
        || before.middle_click_to_trigger != after.middle_click_to_trigger
}

/// The first half of a commit: normalize the edited candidate and note
/// whether its trigger differs from the last saved value. The caller then
/// tries to persist the normalized value.
pub fn prepare_commit(candidate: AppSettings, last_saved: &AppSettings) -> (r: (AppSettings, bool))
    ensures
        normalized_from(candidate, r.0),
        r.1 == trigger_differs(*last_saved, r.0),
{
    let mut normalized = candidate;
    normalized.normalize();
    let changed = trigger_changed(last_saved, &normalized);
    (normalized, changed)
}

/// The second half of a commit, once the write was attempted: on success
/// the saved value is shown with `success_status` and the trigger change
/// is reported; on failure the last saved value comes back with the save
/// error, and nothing is reported as changed.
pub fn finish_commit(
    saved: AppSettings,
    last_saved: AppSettings,
    persisted: bool,
    trigger_changed: bool,
    success_status: &str,
) -> (r: CommitReport)
    ensures
        r.succeeded == persisted,
        persisted ==> {
            &&& r.settings == saved
            &&& r.status@ == success_status@
            &&& r.save_error is None
            &&& r.trigger_changed == trigger_changed
        },
        !persisted ==> {
            &&& r.settings == last_saved
            &&& r.status@ == SAVE_ERROR_MESSAGE@
            &&& r.save_error matches Some(e) && e@ == SAVE_ERROR_MESSAGE@
            &&& !r.trigger_changed
        },
{
    if persisted {
        CommitReport {
            settings: saved,
            succeeded: true,
            status: owned(success_status),
            save_error: None,
            trigger_changed,
        }
    } else {
        CommitReport {
            settings: last_saved,
            succeeded: false,
            status: owned(SAVE_ERROR_MESSAGE),
            save_error: Some(owned(SAVE_ERROR_MESSAGE)),
            trigger_changed: false,
        }
    }
}

} // verus!
