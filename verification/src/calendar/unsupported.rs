//! A platform without a calendar store.

use vstd::prelude::*;

use crate::calendar::CalendarAccess;
use crate::calendar::CalendarInfo;

verus! {

/// There is nothing to have access to.
pub fn access_status() -> (res: CalendarAccess)
    ensures
        res == CalendarAccess::Unsupported,
{
    CalendarAccess::Unsupported
}

/// There is nothing to ask for access to.
pub fn request_access() -> (res: CalendarAccess)
    ensures
        res == CalendarAccess::Unsupported,
{
    CalendarAccess::Unsupported
}

/// There are no calendars.
pub fn list_calendars() -> (res: Vec<CalendarInfo>)
    ensures
        res@.len() == 0,
{
    Vec::new()
}

/// There are no events, whichever calendars are asked for.
pub fn current_event_title(_calendar_ids: &[String]) -> (res: Option<String>)
    ensures
        res is None,
{
    None
}

} // verus!
