//! Translation of backend error strings into short human sentences. The
//! backend reports failures as opaque strings that may embed a small set of
//! recognized markers; they are matched in a fixed priority order, and an
//! unrecognized string passes through unchanged.

use vstd::prelude::*;
use crate::text::contains_seq;
use crate::text::contains_sub;

verus! {

/// The sentence shown for a backend error text: the message of the first
/// recognized marker it contains, in priority order, or the text itself when
/// none matches.
pub open spec fn friendly_error(e: Seq<char>) -> Seq<char> {
    if contains_seq(e, "org.freedesktop.DBus.Error.InteractiveAuthorizationRequired"@) {
        "You do not have the permission to do that. Try running the program with sudo."@
    } else if contains_seq(e, "org.freedesktop.DBus.Error.ServiceUnknown"@) {
        "The requested service is not available or not running."@
    } else if contains_seq(e, "org.freedesktop.DBus.Error.NoReply"@) {
        "The service did not respond in time. It might be busy or not functioning properly."@
    } else if contains_seq(e, "org.freedesktop.DBus.Error.AccessDenied"@) {
        "Access denied. You don't have sufficient permissions for this operation."@
    } else if contains_seq(e, "org.freedesktop.systemd1.NoSuchUnit"@) {
        "The requested service unit doesn't exist."@
    } else {
        e
    }
}

/// Maps a backend error string to the sentence shown in the error modal.
pub fn get_user_friendly_error(error: &str) -> (r: &str)
    ensures
        r@ == friendly_error(error@),
{
    if contains_sub(error, "org.freedesktop.DBus.Error.InteractiveAuthorizationRequired") {
        "You do not have the permission to do that. Try running the program with sudo."
    } else if contains_sub(error, "org.freedesktop.DBus.Error.ServiceUnknown") {
        "The requested service is not available or not running."
    } else if contains_sub(error, "org.freedesktop.DBus.Error.NoReply") {
        "The service did not respond in time. It might be busy or not functioning properly."
    } else if contains_sub(error, "org.freedesktop.DBus.Error.AccessDenied") {
        "Access denied. You don't have sufficient permissions for this operation."
    } else if contains_sub(error, "org.freedesktop.systemd1.NoSuchUnit") {
        "The requested service unit doesn't exist."
    } else {
        error
    }
}

} // verus!
