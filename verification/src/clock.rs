//! The wall clock, read through `chrono`.

use chrono::Timelike;
use vstd::prelude::*;

verus! {

/// The pattern of the timestamps stored in rows.
pub const ROW_STAMP: &'static str = "%Y-%m-%d %H:%M:%S";

/// The pattern of the timestamps used in file names.
pub const FILE_STAMP: &'static str = "%Y%m%d_%H%M%S";

/// A pattern the clock is asked to render.
pub open spec fn known_pattern(pattern: Seq<char>) -> bool {
    pattern == ROW_STAMP@ || pattern == FILE_STAMP@
}

/// Calls `chrono::Utc::now`, formats the instant with `DateTime::format`
/// and renders it with `to_string`. Nothing is claimed of the text: it is
/// whatever the clock says. The two known patterns hold only specifiers that
/// `chrono` can render, so the rendering itself does not fail; `Utc::now`
/// gives up on a system clock set before 1970.
#[verifier::external_body]
pub(crate) fn utc_now(pattern: &str) -> (stamp: String)
    requires
        known_pattern(pattern@),
{
    chrono::Utc::now().format(pattern).to_string()
}

/// Calls `chrono::Utc::now`, moves the instant to the fixed offset
/// `seconds_west` of Greenwich (`FixedOffset::west_opt`, `with_timezone`) and
/// reads `Timelike::hour`, which `chrono` documents as a number from 0 to 23.
/// The offset must be less than a day, as `west_opt` asks.
#[verifier::external_body]
pub(crate) fn hour_west_of_greenwich(seconds_west: i32) -> (hour: u32)
    requires
        -86_400 < seconds_west < 86_400,
    ensures
        hour < 24,
{
    chrono::Utc::now().with_timezone(&chrono::FixedOffset::west_opt(seconds_west).unwrap()).hour()
}

} // verus!
