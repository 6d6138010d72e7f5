//! The transported representation of a level filter.

use vstd::prelude::*;
use crate::tracing::LevelFilter;

verus! {

/// The number that stands for a level.
pub open spec fn repr(level: LevelFilter) -> u8 {
    match level {
        LevelFilter::Off => 0,
        LevelFilter::Error => 1,
        LevelFilter::Warn => 2,
        LevelFilter::Info => 3,
        LevelFilter::Debug => 4,
        LevelFilter::Trace => 5,
    }
}

/// The level that a number stands for; an unknown one is off.
pub open spec fn level_of(n: u8) -> LevelFilter {
    if n == 1 {
        LevelFilter::Error
    } else if n == 2 {
        LevelFilter::Warn
    } else if n == 3 {
        LevelFilter::Info
    } else if n == 4 {
        LevelFilter::Debug
    } else if n == 5 {
        LevelFilter::Trace
    } else {
        LevelFilter::Off
    }
}

/// Returns the default level.
pub fn off() -> (r: LevelFilter)
    ensures
        r == LevelFilter::Off,
{
    LevelFilter::Off
}

/// Returns whether the level may be left out because it is off.
///
/// `allow_skip` says whether anything may be left out.
pub fn is_off(level: &LevelFilter, allow_skip: bool) -> (r: bool)
    ensures
        r == (allow_skip && *level == LevelFilter::Off),
{
    match level {
        LevelFilter::Off => allow_skip,
        _ => false,
    }
}

/// Returns the number that stands for a level.
pub fn serialize(level: &LevelFilter) -> (r: u8)
    ensures
        r == repr(*level),
{
    match level {
        LevelFilter::Off => 0,
        LevelFilter::Error => 1,
        LevelFilter::Warn => 2,
        LevelFilter::Info => 3,
        LevelFilter::Debug => 4,
        LevelFilter::Trace => 5,
    }
}

/// Returns the level that a number stands for.
pub fn deserialize(n: u8) -> (r: LevelFilter)
    ensures
        r == level_of(n),
{
    match n {
        1 => LevelFilter::Error,
        2 => LevelFilter::Warn,
        3 => LevelFilter::Info,
        4 => LevelFilter::Debug,
        5 => LevelFilter::Trace,
        _ => LevelFilter::Off,
    }
}

/// A level arrives unchanged.
pub proof fn law_level_round_trip(level: LevelFilter)
    ensures
        level_of(repr(level)) == level,
{
}

/// A level is transported as its place in the order of verbosity and comes back unchanged; a
/// number that stands for none turns tracing off.
pub proof fn law_level_is_transported(
    level: LevelFilter,
    n: u8,
    back: LevelFilter,
    received: u8,
    r: LevelFilter,
)
    requires
        call_ensures(serialize, (&level,), n),
        call_ensures(deserialize, (n,), back),
        call_ensures(deserialize, (received,), r),
    ensures
        back == level,
        n <= 5,
        n == 0 <==> level == LevelFilter::Off,
        n == 1 <==> level == LevelFilter::Error,
        n == 2 <==> level == LevelFilter::Warn,
        n == 3 <==> level == LevelFilter::Info,
        n == 4 <==> level == LevelFilter::Debug,
        n == 5 <==> level == LevelFilter::Trace,
        received > 5 ==> r == LevelFilter::Off,
{
}

/// A level is left out only if it comes back as it was.
pub proof fn law_left_out_level(level: LevelFilter, allow_skip: bool, r: bool, missing: LevelFilter)
    requires
        call_ensures(is_off, (&level, allow_skip), r),
        call_ensures(off, (), missing),
    ensures
        r <==> allow_skip && level == missing,
        missing == LevelFilter::Off,
{
}

} // verus!
