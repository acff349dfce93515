//! The one clock access of the engine: reading the current local date and
//! time as the human-readable timestamp format of the message log.

use vstd::prelude::*;

verus! {

/// Relies on `chrono::Local::now` and `chrono::DateTime::format`: renders
/// the current local date and time as weekday name, `day.month.year` and
/// `hour:minute`. The result depends on the clock, so nothing is promised
/// of its value.
#[verifier::external_body]
pub fn get_current_date() -> String {
    chrono::Local::now().format("%A %d.%m.%Y %H:%M").to_string()
}

} // verus!
