//! Notifications ("toasts") shown to the user, and when they close by themselves.

use vstd::prelude::*;

verus! {

/// The kind of a notification.
#[derive(Debug, Clone, Copy, PartialEq, Eq, Structural)]
pub enum ToastVariant {
    Info,
    Success,
    Warn,
    Error,
}

/// Whether and when a notification closes by itself.
#[derive(Debug, Clone, Copy, PartialEq, Eq, Structural)]
pub enum ToastAutomaticallyClosing {
    No,
    WithDefaultDelay,
    WithDelay { millis: u32 },
}

/// A notification, before it is given an id and a creation time.
#[derive(Debug, Clone, PartialEq)]
pub struct Toast {
    pub variant: ToastVariant,
    pub heading: String,
    pub message: String,
    pub dismissible: bool,
    pub automatically_closing: ToastAutomaticallyClosing,
}

/// The delay after which a notification closes by itself, if it does: the default delay
/// or the notification's own one.
pub open spec fn delay_of(closing: ToastAutomaticallyClosing, default_delay: u32) -> Option<u32> {
    match closing {
        ToastAutomaticallyClosing::No => None,
        ToastAutomaticallyClosing::WithDefaultDelay => Some(default_delay),
        ToastAutomaticallyClosing::WithDelay { millis } => Some(millis),
    }
}

/// Computes the delay after which a notification closes by itself, if it does.
pub fn close_delay(closing: ToastAutomaticallyClosing, default_delay: u32) -> (r: Option<u32>)
    ensures
        r == delay_of(closing, default_delay),
        closing is No ==> r is None,
        closing is WithDefaultDelay ==> r == Some(default_delay),
        closing matches ToastAutomaticallyClosing::WithDelay { millis } ==> r == Some(millis),
{
    match closing {
        ToastAutomaticallyClosing::No => None,
        ToastAutomaticallyClosing::WithDefaultDelay => Some(default_delay),
        ToastAutomaticallyClosing::WithDelay { millis } => Some(millis),
    }
}

/// A notification that asks for its own delay closes after exactly that delay, whatever
/// the default; one that asks for the default closes after the default; one that does
/// not close by itself has no delay.
pub proof fn lemma_close_delays(millis: u32, default_delay: u32)
    ensures
        delay_of(ToastAutomaticallyClosing::WithDelay { millis }, default_delay) == Some(millis),
        delay_of(ToastAutomaticallyClosing::WithDefaultDelay, default_delay) == Some(default_delay),
        delay_of(ToastAutomaticallyClosing::No, default_delay) is None,
{
}

} // verus!
