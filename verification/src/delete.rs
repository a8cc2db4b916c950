//! The outcome of deleting an entity, and the notification that reports it.

use vstd::prelude::*;
use vstd::string::*;
use crate::text::{decimal, format_u64};
use crate::toast::{Toast, ToastAutomaticallyClosing, ToastVariant};

verus! {

/// What the server answered to a delete request.
#[derive(Debug, Clone, PartialEq)]
pub enum DeleteResult {
    /// This many entities were deleted.
    Deleted(u64),
    /// The server refused, for the given reason.
    Aborted { reason: String },
    CriticalValidationErrors,
}

/// A request that failed before the server answered; holds the error's description.
#[derive(Debug, Clone, PartialEq)]
pub struct RequestError(pub String);

/// The word for `num` entries.
pub open spec fn entries_word(num: u64) -> Seq<char> {
    if num == 1 {
        "Eintrag"@
    } else {
        "Einträge"@
    }
}

/// The notification reporting the outcome of a delete request: its variant, header and
/// text.
pub open spec fn delete_toast(result: Result<DeleteResult, RequestError>) -> (ToastVariant, Seq<
    char,
>, Seq<char>) {
    match result {
        Ok(DeleteResult::Deleted(num)) => (
            ToastVariant::Success,
            "Löschen"@,
            decimal(num as nat) + " "@ + entries_word(num) + " erfolgreich gelöscht."@,
        ),
        Ok(DeleteResult::Aborted { reason }) => (
            ToastVariant::Warn,
            "Delete"@,
            "Löschvorgang abgebrochen. Grund: "@ + reason@,
        ),
        Ok(DeleteResult::CriticalValidationErrors) => (
            ToastVariant::Error,
            "Delete"@,
            "CriticalValidationErrors"@,
        ),
        Err(err) => (ToastVariant::Error, "Delete"@, "Konnte Eintrag nicht Löschen: "@ + err.0@),
    }
}

/// Builds the notification that tells the user how a delete request went. It closes
/// after the default delay.
pub fn handle_delete_result(result: &Result<DeleteResult, RequestError>) -> (r: Toast)
    ensures
        (r.variant, r.heading@, r.message@) == delete_toast(*result),
        r.automatically_closing == ToastAutomaticallyClosing::WithDefaultDelay,
        !r.dismissible,
{
    let (variant, heading, message) = match result {
        Ok(DeleteResult::Deleted(num)) => {
            let mut message = format_u64(*num);
            message.append(" ");
            if *num == 1 {
                message.append("Eintrag");
            } else {
                message.append("Einträge");
            }
            message.append(" erfolgreich gelöscht.");
            (ToastVariant::Success, String::from_str("Löschen"), message)
        },
        Ok(DeleteResult::Aborted { reason }) => {
            let mut message = String::from_str("Löschvorgang abgebrochen. Grund: ");
            message.append(reason.as_str());
            (ToastVariant::Warn, String::from_str("Delete"), message)
        },
        Ok(DeleteResult::CriticalValidationErrors) => {
            (
                ToastVariant::Error,
                String::from_str("Delete"),
                String::from_str("CriticalValidationErrors"),
            )
        },
        Err(err) => {
            let mut message = String::from_str("Konnte Eintrag nicht Löschen: ");
            message.append(err.0.as_str());
            (ToastVariant::Error, String::from_str("Delete"), message)
        },
    };
    Toast {
        variant,
        heading,
        message,
        dismissible: false,
        automatically_closing: ToastAutomaticallyClosing::WithDefaultDelay,
    }
}

} // verus!
