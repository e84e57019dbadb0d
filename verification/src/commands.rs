//! The badge update that the user interface can invoke.
//!
//! The update is decided in two steps around the host's work: what to hand to
//! the window once it has been looked up, and what to answer once the host has
//! replied. `update_dock_badge_safe` runs both against a `Host`.

use vstd::prelude::*;
use vstd::string::*;
use crate::badge::{badge_label, label_of, text_view};
use crate::error::BadgeError;
use crate::host::{apply_spec, main_window_name, reply_view, Host, WindowModel};

verus! {

/// First step: the label to hand to the main window. Without a window the
/// update ends here with `WindowNotFound`, and nothing is handed to the host.
pub fn plan_badge_update(window_found: bool, count: u32) -> (plan: Result<
    Option<String>,
    BadgeError,
>)
    ensures
        window_found ==> plan is Ok && text_view(plan->Ok_0) == label_of(count),
        !window_found ==> plan == Err::<Option<String>, BadgeError>(BadgeError::WindowNotFound),
{
    if window_found {
        Ok(badge_label(count))
    } else {
        Err(BadgeError::WindowNotFound)
    }
}

/// Second step: the result of the update, from what the host answered when it
/// was handed the label. A refusal keeps the host's diagnostic as it came.
pub fn conclude_badge_update(outcome: Result<(), String>) -> (result: Result<(), BadgeError>)
    ensures
        outcome is Ok ==> result is Ok,
        outcome is Err ==> result == Err::<(), BadgeError>(
            BadgeError::BadgeApplyFailed(outcome->Err_0),
        ),
{
    match outcome {
        Ok(_) => Ok(()),
        Err(diagnostic) => Err(BadgeError::BadgeApplyFailed(diagnostic)),
    }
}

/// The reply that crosses to the user interface, where an error is plain text.
pub open spec fn flatten_spec(result: Result<(), BadgeError>) -> Result<(), Seq<char>> {
    match result {
        Ok(_) => Ok(()),
        Err(e) => Err(e.message_spec()),
    }
}

/// Flattens a result for the user interface: success stays, an error becomes
/// its message.
pub fn flatten(result: Result<(), BadgeError>) -> (reply: Result<(), String>)
    ensures
        reply_view(reply) == flatten_spec(result),
{
    match result {
        Ok(_) => Ok(()),
        Err(e) => Err(e.message()),
    }
}

/// The host after an update with `count`, and the reply to the caller.
pub open spec fn update_spec(host: Option<WindowModel>, count: u32) -> (
    Option<WindowModel>,
    Result<(), Seq<char>>,
) {
    match host {
        None => (None, Err("Window not found"@)),
        Some(w) => (Some(apply_spec(w, label_of(count)).0), apply_spec(w, label_of(count)).1),
    }
}

/// Sets the badge of the main window to `count`, or clears it for zero.
///
/// The window is looked up anew on every call. Without it the call fails with
/// "Window not found" and the host is left untouched. Else the label of the
/// count is handed to the window; where the host refuses, its diagnostic is
/// the error and the badge stays as the host left it.
pub fn update_dock_badge_safe(host: &mut Host, count: u32) -> (reply: Result<(), String>)
    ensures
        (final(host)@, reply_view(reply)) == update_spec(old(host)@, count),
        old(host)@ is None ==> *final(host) == *old(host),
        old(host)@ is Some && old(host)@->Some_0.refusal is None ==> reply is Ok,
{
    let found = host.has_window(main_window_name());
    match plan_badge_update(found, count) {
        Err(e) => flatten(Err(e)),
        Ok(label) => match &mut host.main_window {
            Some(window) => {
                let outcome = window.set_badge_label(label);
                flatten(conclude_badge_update(outcome))
            },
            None => flatten(Err(BadgeError::WindowNotFound)),
        },
    }
}

/// A count of zero clears the badge, whatever it showed before.
pub proof fn lemma_zero_clears(w: WindowModel)
    requires
        w.refusal is None,
    ensures
        update_spec(Some(w), 0).0 == Some(WindowModel { badge: None, refusal: None }),
        update_spec(Some(w), 0).1 is Ok,
{
}

/// A positive count on a window that accepts labels shows that count in
/// decimal and succeeds.
pub proof fn lemma_positive_shows_count(w: WindowModel, count: u32)
    requires
        w.refusal is None,
        count > 0,
    ensures
        update_spec(Some(w), count).0->Some_0.badge == Some(crate::decimal::decimal(count as nat)),
        update_spec(Some(w), count).1 is Ok,
{
}

/// The same update twice in a row ends in the state that the first one left
/// and gets the same reply; on a window that accepts labels both succeed.
pub proof fn lemma_update_idempotent(host: Option<WindowModel>, count: u32)
    ensures
        update_spec(update_spec(host, count).0, count) == update_spec(host, count),
        host is Some && host->Some_0.refusal is None ==> update_spec(host, count).1 is Ok
            && update_spec(update_spec(host, count).0, count).1 is Ok,
{
}

/// The last update wins: after two updates the host is as if only the second
/// had been made. Nothing of the first remains.
pub proof fn lemma_last_update_wins(host: Option<WindowModel>, first: u32, second: u32)
    ensures
        update_spec(update_spec(host, first).0, second) == update_spec(host, second),
{
}

/// Without a main window every update fails with the same sentence and
/// leaves the host as it was.
pub proof fn lemma_missing_window(count: u32)
    ensures
        update_spec(None, count) == (None::<WindowModel>, Err::<(), Seq<char>>("Window not found"@)),
{
}

} // verus!
