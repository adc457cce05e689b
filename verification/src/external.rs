//! The trusted boundary to the outside crates.
//!
//! Each wrapper makes one outside call whose result depends on the clock or
//! on the machine; nothing is promised of the values, and the verified
//! callers state what holds whatever comes back.

use vstd::prelude::*;

verus! {

/// Relies on `chrono::Local::now` and its formatter: the current local
/// time rendered as year, month and day, then hours, minutes, seconds and
/// fractional seconds.  The result depends on the clock, so nothing is
/// promised of its value.
#[verifier::external_body]
pub(crate) fn now_timestamp() -> String {
    chrono::Local::now().format("%Y%m%d-%H:%M:%S:%9f").to_string()
}

/// Relies on `hostname::get`: the machine's hostname, rendered lossily as
/// text.  The result depends on the machine, so nothing is promised of its
/// value; a lookup error becomes `None`.
#[verifier::external_body]
pub(crate) fn machine_hostname() -> Option<String> {
    match hostname::get() {
        Ok(h) => Some(h.to_string_lossy().to_string()),
        Err(_) => None,
    }
}

} // verus!
