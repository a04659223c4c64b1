//! Calendar lookup for naming recordings after the meeting they belong to.
//!
//! On macOS the local calendar store is read through EventKit: see
//! [`eventkit`]. Elsewhere there is none: see [`unsupported`].

use vstd::prelude::*;

pub mod eventkit;
pub mod unsupported;

verus! {

/// A calendar that the user can choose to draw meeting names from.
#[derive(Debug)]
pub struct CalendarInfo {
    /// Stable identifier, persisted in settings.
    pub id: String,
    pub title: String,
    /// Account that the calendar belongs to, such as "Google" or "iCloud".
    pub source: String,
}

impl Clone for CalendarInfo {
    fn clone(&self) -> (res: Self)
        ensures
            res == *self,
    {
        CalendarInfo {
            id: self.id.clone(),
            title: self.title.clone(),
            source: self.source.clone(),
        }
    }
}

/// Whether the application may read calendar data.
#[derive(Debug, Clone, Copy, PartialEq, Eq, Structural)]
pub enum CalendarAccess {
    /// The user has not been asked yet.
    NotDetermined,
    Granted,
    Denied,
    /// There is no calendar store on this platform.
    Unsupported,
}

} // verus!
