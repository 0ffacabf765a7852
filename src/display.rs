//! Choosing the display that the brightness controller binds to.

use vstd::prelude::*;

verus! {

/// Identifier that the platform gives to one active display.
pub type DisplayId = u32;

/// How many display identifiers are asked of the platform at most.
pub const MAX_DISPLAYS: usize = 16;

/// Why the list of active displays could not be had.
#[derive(Debug, Clone, Copy, PartialEq, Eq, Structural)]
pub enum EnumerationError {
    /// The platform call reported this non-zero status.
    PlatformCallFailed(i32),
    /// The call succeeded but no display is active.
    NoActiveDisplays,
}

/// The identifiers that a listing yields: at most `max` of those reported.
pub open spec fn kept_ids(max: usize, reported: Seq<DisplayId>) -> Seq<DisplayId> {
    if reported.len() <= max {
        reported
    } else {
        reported.take(max as int)
    }
}

/// What a listing means, given the platform's status and the identifiers it
/// reported.
pub open spec fn listing_result(max: usize, status: i32, reported: Seq<DisplayId>) -> Result<
    Seq<DisplayId>,
    EnumerationError,
> {
    if status != 0 {
        Err(EnumerationError::PlatformCallFailed(status))
    } else if kept_ids(max, reported).len() == 0 {
        Err(EnumerationError::NoActiveDisplays)
    } else {
        Ok(kept_ids(max, reported))
    }
}

/// Interprets the answer of the platform's active-display query, which was
/// asked for at most `max` identifiers: a non-zero status is a failure, an
/// empty list is an error of its own, and at most `max` identifiers are kept.
pub fn list_active_displays(max: usize, status: i32, reported: &Vec<DisplayId>) -> (r: Result<
    Vec<DisplayId>,
    EnumerationError,
>)
    ensures
        r.is_ok() == listing_result(max, status, reported@).is_ok(),
        r matches Ok(ids) ==> listing_result(max, status, reported@) == Ok::<
            Seq<DisplayId>,
            EnumerationError,
        >(ids@),
        r matches Err(e) ==> listing_result(max, status, reported@) == Err::<
            Seq<DisplayId>,
            EnumerationError,
        >(e),
{
    if status != 0 {
        return Err(EnumerationError::PlatformCallFailed(status));
    }
    let mut ids: Vec<DisplayId> = Vec::new();
    let mut i: usize = 0;
    while i < reported.len() && i < max
        invariant
            i <= reported.len(),
            i <= max,
            ids@ == reported@.take(i as int),
        decreases reported.len() - i,
    {
        ids.push(reported[i]);
        i = i + 1;
    }
    assert(ids@ == kept_ids(max, reported@));
    if ids.len() == 0 {
        Err(EnumerationError::NoActiveDisplays)
    } else {
        Ok(ids)
    }
}

/// The display that a controller binds to: the first one listed.
pub open spec fn primary_of(listing: Result<Seq<DisplayId>, EnumerationError>) -> Result<
    DisplayId,
    EnumerationError,
> {
    match listing {
        Ok(ids) => if ids.len() > 0 {
            Ok(ids[0])
        } else {
            Err(EnumerationError::NoActiveDisplays)
        },
        Err(e) => Err(e),
    }
}

/// The display to bind to, from the platform's answer to a query for at
/// most `MAX_DISPLAYS` identifiers.
pub fn primary_display(status: i32, reported: &Vec<DisplayId>) -> (r: Result<
    DisplayId,
    EnumerationError,
>)
    ensures
        r == primary_of(listing_result(MAX_DISPLAYS, status, reported@)),
{
    match list_active_displays(MAX_DISPLAYS, status, reported) {
        Ok(ids) => Ok(ids[0]),
        Err(e) => Err(e),
    }
}

} // verus!
