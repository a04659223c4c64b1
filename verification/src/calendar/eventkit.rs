//! What to make of the calendar store of macOS.

use vstd::prelude::*;
use vstd::string::*;

use crate::calendar::CalendarAccess;
use crate::calendar::CalendarInfo;
use crate::text;

verus! {

/// The authorization status by which EventKit says that the user was not asked.
pub const STATUS_NOT_DETERMINED: i64 = 0;

/// The authorization status by which EventKit grants full access.
pub const STATUS_FULL_ACCESS: i64 = 3;

/// Seconds to wait for an answer to the permission prompt.
pub const PROMPT_TIMEOUT_SECS: u64 = 120;

/// Seconds before now from which on events are looked for in the store. What
/// comes of that is filtered more precisely.
pub const SEARCH_WINDOW_SECS: u32 = 14400;

/// What access an authorization status of EventKit means. Write-only access
/// cannot read events, which is what is needed, so it counts as denied.
pub open spec fn access_for(status: i64) -> CalendarAccess {
    if status == STATUS_NOT_DETERMINED {
        CalendarAccess::NotDetermined
    } else if status == STATUS_FULL_ACCESS {
        CalendarAccess::Granted
    } else {
        CalendarAccess::Denied
    }
}

/// The access that the authorization status of EventKit means.
pub fn access_status(status: i64) -> (res: CalendarAccess)
    ensures
        res == access_for(status),
{
    if status == STATUS_NOT_DETERMINED {
        CalendarAccess::NotDetermined
    } else if status == STATUS_FULL_ACCESS {
        CalendarAccess::Granted
    } else {
        CalendarAccess::Denied
    }
}

/// Whether the calendar store may be read: only where access is granted.
pub fn may_read(access: CalendarAccess) -> (res: bool)
    ensures
        res == (access == CalendarAccess::Granted),
{
    access == CalendarAccess::Granted
}

/// How to go about asking for access.
#[derive(Debug, Clone, Copy, PartialEq, Eq, Structural)]
pub enum AccessRequest {
    /// There is nothing to ask: this is the access.
    Settled(CalendarAccess),
    /// Show the permission prompt, and wait so long for an answer.
    Prompt { timeout_secs: u64 },
}

/// What came of the permission prompt.
#[derive(Debug, Clone, Copy, PartialEq, Eq, Structural)]
pub enum PromptReply {
    /// The user granted access, or did not.
    Answered { granted: bool },
    /// There was no answer in time; this is the authorization status now.
    TimedOut { status: i64 },
}

/// How to ask for access, given what access there is. The user is prompted only
/// if they were not asked before.
pub fn request_access(access: CalendarAccess) -> (res: AccessRequest)
    ensures
        res == if access == CalendarAccess::NotDetermined {
            AccessRequest::Prompt { timeout_secs: PROMPT_TIMEOUT_SECS }
        } else {
            AccessRequest::Settled(access)
        },
{
    match access {
        CalendarAccess::NotDetermined => AccessRequest::Prompt {
            timeout_secs: PROMPT_TIMEOUT_SECS,
        },
        other => AccessRequest::Settled(other),
    }
}

/// The access that follows from the permission prompt.
pub open spec fn access_after(reply: PromptReply) -> CalendarAccess {
    match reply {
        PromptReply::Answered { granted: true } => CalendarAccess::Granted,
        PromptReply::Answered { granted: false } => CalendarAccess::Denied,
        PromptReply::TimedOut { status } => access_for(status),
    }
}

/// The access that follows from the permission prompt.
pub fn prompt_outcome(reply: PromptReply) -> (res: CalendarAccess)
    ensures
        res == access_after(reply),
{
    match reply {
        PromptReply::Answered { granted } => if granted {
            CalendarAccess::Granted
        } else {
            CalendarAccess::Denied
        },
        PromptReply::TimedOut { status } => access_status(status),
    }
}

/// A calendar of the store.
#[derive(Debug)]
pub struct StoreCalendar {
    pub id: String,
    pub title: String,
    /// Title of the account that it belongs to, if it belongs to one.
    pub source: Option<String>,
}

/// `info` shows the calendar `calendar`.
pub open spec fn shows(info: CalendarInfo, calendar: StoreCalendar) -> bool {
    &&& info.id@ == calendar.id@
    &&& info.title@ == calendar.title@
    &&& info.source@ == match calendar.source {
        Some(source) => source@,
        None => Seq::empty(),
    }
}

/// The calendars that the user can choose from: those of the store, in its
/// order, or none without access to it.
pub fn list_calendars(access: CalendarAccess, calendars: &[StoreCalendar]) -> (res: Vec<
    CalendarInfo,
>)
    ensures
        access == CalendarAccess::Granted ==> res@.len() == calendars@.len(),
        access != CalendarAccess::Granted ==> res@.len() == 0,
        forall|i: int| 0 <= i < res@.len() ==> shows(#[trigger] res@[i], calendars@[i]),
{
    let mut out: Vec<CalendarInfo> = Vec::new();
    if !may_read(access) {
        return out;
    }
    let mut i: usize = 0;
    while i < calendars.len()
        invariant
            i <= calendars.len(),
            out@.len() == i,
            forall|j: int| 0 <= j < i ==> shows(#[trigger] out@[j], calendars@[j]),
        decreases calendars.len() - i,
    {
        let calendar = &calendars[i];
        let source = match &calendar.source {
            Some(source) => source.clone(),
            None => String::new(),
        };
        out.push(
            CalendarInfo { id: calendar.id.clone(), title: calendar.title.clone(), source },
        );
        i = i + 1;
    }
    out
}

/// One of `ids` is `id`.
pub open spec fn names(ids: Seq<String>, id: String) -> bool {
    exists|w: int| 0 <= w < ids.len() && (#[trigger] ids[w])@ == id@
}

/// `chosen` are the places of exactly those of `all` that `wanted` names, in
/// order.
pub open spec fn selects(chosen: Seq<usize>, all: Seq<String>, wanted: Seq<String>) -> bool {
    &&& forall|k: int|
        0 <= k < chosen.len() ==> #[trigger] chosen[k] < all.len() && names(
            wanted,
            all[chosen[k] as int],
        )
    &&& forall|k: int, l: int| 0 <= k < l < chosen.len() ==> chosen[k] < chosen[l]
    &&& forall|i: int|
        0 <= i < all.len() && names(wanted, #[trigger] all[i]) ==> exists|k: int|
            0 <= k < chosen.len() && #[trigger] chosen[k] == i
}

/// Whether one of `ids` is `id`.
fn is_named(ids: &[String], id: &String) -> (res: bool)
    ensures
        res == names(ids@, *id),
{
    let mut w: usize = 0;
    while w < ids.len()
        invariant
            w <= ids.len(),
            forall|v: int| 0 <= v < w ==> (#[trigger] ids@[v])@ != id@,
        decreases ids.len() - w,
    {
        if ids[w] == *id {
            return true;
        }
        w = w + 1;
    }
    false
}

/// Narrows the search to the calendars that the user has chosen, by their
/// places among `all`; nothing means to search every calendar. That is so where
/// the user has chosen none, and where none of the chosen exists any more
/// (renamed account, deleted calendar), rather than never to find anything.
pub fn calendar_filter(all: &[String], wanted: &[String]) -> (res: Option<Vec<usize>>)
    ensures
        match res {
            Some(chosen) => chosen@.len() > 0 && selects(chosen@, all@, wanted@),
            None => forall|i: int| 0 <= i < all@.len() ==> !names(wanted@, #[trigger] all@[i]),
        },
{
    let mut chosen: Vec<usize> = Vec::new();
    let mut i: usize = 0;
    while i < all.len()
        invariant
            i <= all.len(),
            forall|k: int|
                0 <= k < chosen@.len() ==> #[trigger] chosen@[k] < i && names(
                    wanted@,
                    all@[chosen@[k] as int],
                ),
            forall|k: int, l: int| 0 <= k < l < chosen@.len() ==> chosen@[k] < chosen@[l],
            forall|j: int|
                0 <= j < i && names(wanted@, #[trigger] all@[j]) ==> exists|k: int|
                    0 <= k < chosen@.len() && #[trigger] chosen@[k] == j,
        decreases all.len() - i,
    {
        let ghost before = chosen@;
        if is_named(wanted, &all[i]) {
            chosen.push(i);
            assert(chosen@[before.len() as int] == i);
        }
        assert forall|j: int| 0 <= j < i + 1 && names(wanted@, #[trigger] all@[j]) implies exists|
            k: int,
        |
            0 <= k < chosen@.len() && #[trigger] chosen@[k] == j by {
            if j < i {
                let k: int = choose|k: int| 0 <= k < before.len() && #[trigger] before[k] == j;
                assert(chosen@[k] == j);
            }
        }
        i = i + 1;
    }
    if chosen.len() == 0 {
        None
    } else {
        Some(chosen)
    }
}

/// An event of the calendar store. Its times are numbers that are ordered as
/// the times are.
#[derive(Debug)]
pub struct CalendarEvent {
    pub title: String,
    pub all_day: bool,
    pub starts: i64,
    pub ends: i64,
}

/// An event that is on at the time `now` and can name a meeting. An event of a
/// whole day (a holiday, a birthday) cannot.
pub open spec fn eligible(event: CalendarEvent, now: i64) -> bool {
    &&& !event.all_day
    &&& event.starts <= now <= event.ends
    &&& text::trimmed(event.title@).len() > 0
}

/// The event at `i` names the meeting: of the eligible ones it started last,
/// and it is the first of those that started then.
pub open spec fn names_meeting(events: Seq<CalendarEvent>, now: i64, i: int) -> bool {
    &&& 0 <= i < events.len()
    &&& eligible(events[i], now)
    &&& forall|j: int|
        0 <= j < events.len() && eligible(#[trigger] events[j], now) ==> events[j].starts
            < events[i].starts || (events[j].starts == events[i].starts && i <= j)
}

/// Title of an event that is on at the time `now`, preferring the one that
/// started most recently: the meeting that was just joined, rather than a long
/// block that merely overlaps.
pub fn current_event_title(
    access: CalendarAccess,
    events: &[CalendarEvent],
    now: i64,
) -> (res: Option<String>)
    ensures
        match res {
            Some(title) => access == CalendarAccess::Granted && exists|i: int|
                #[trigger] names_meeting(events@, now, i) && title@ == text::trimmed(
                    events@[i].title@,
                ),
            None => access != CalendarAccess::Granted || forall|i: int|
                0 <= i < events@.len() ==> !eligible(#[trigger] events@[i], now),
        },
{
    if !may_read(access) {
        return None;
    }
    let mut best: Option<usize> = None;
    let mut i: usize = 0;
    while i < events.len()
        invariant
            i <= events.len(),
            match best {
                Some(b) => b < i && names_meeting(events@.take(i as int), now, b as int),
                None => forall|j: int| 0 <= j < i ==> !eligible(#[trigger] events@[j], now),
            },
        decreases events.len() - i,
    {
        let event = &events[i];
        let ghost before = events@.take(i as int);
        let ghost upto = events@.take(i + 1);
        assert(forall|j: int| 0 <= j < i ==> #[trigger] upto[j] == before[j]);
        assert(forall|j: int| 0 <= j < i + 1 ==> #[trigger] upto[j] == events@[j]);
        if !event.all_day && event.starts <= now && event.ends >= now
            && !event.title.as_str().trim().is_empty() {
            let later = match best {
                Some(b) => event.starts > events[b].starts,
                None => true,
            };
            if later {
                best = Some(i);
                assert forall|j: int| 0 <= j < upto.len() && eligible(
                    #[trigger] upto[j],
                    now,
                ) implies upto[j].starts < upto[i as int].starts || (upto[j].starts
                    == upto[i as int].starts && i <= j) by {
                    if j < i {
                        assert(before[j] == upto[j]);
                        assert(events@[j] == upto[j]);
                    }
                }
                assert(names_meeting(upto, now, i as int));
            } else {
                assert(names_meeting(upto, now, best->0 as int));
            }
        } else {
            assert(!eligible(upto[i as int], now));
            assert(best is Some ==> names_meeting(upto, now, best->0 as int));
        }
        i = i + 1;
    }
    proof {
        assert(events@.take(events@.len() as int) =~= events@);
    }
    match best {
        Some(b) => {
            assert(names_meeting(events@, now, b as int));
            Some(events[b].title.as_str().trim().to_owned())
        },
        None => None,
    }
}

/// Which event names the meeting is never in doubt.
pub proof fn law_one_event_names_meeting(events: Seq<CalendarEvent>, now: i64, i: int, j: int)
    requires
        names_meeting(events, now, i),
        names_meeting(events, now, j),
    ensures
        i == j,
{
    assert(eligible(events[i], now));
    assert(eligible(events[j], now));
}

/// The title that names a meeting is not blank and has no white space around
/// it, and it is that of an event that is on now and does not last all day.
pub proof fn law_meeting_title_is_usable(events: Seq<CalendarEvent>, now: i64, i: int)
    requires
        names_meeting(events, now, i),
    ensures
        !events[i].all_day,
        events[i].starts <= now <= events[i].ends,
        ({
            let title = text::trimmed(events[i].title@);
            &&& title.len() > 0
            &&& !text::white_space(title.first())
            &&& !text::white_space(title.last())
        }),
{
    text::lemma_trimmed(events[i].title@);
}

/// The event is on at the time `now`, does not last all day, and has a title
/// that is not blank.
pub open spec fn is_meeting_slot(event: CalendarEvent, now: i64) -> bool {
    &&& !event.all_day
    &&& event.starts <= now
    &&& now <= event.ends
    &&& !text::all_white(event.title@)
}

proof fn lemma_eligible(event: CalendarEvent, now: i64)
    ensures
        eligible(event, now) <==> is_meeting_slot(event, now),
{
    text::lemma_trimmed(event.title@);
}

/// The event that names the meeting is a meeting slot, and no other slot starts
/// later than it; of those that start with it, it is the first.
pub proof fn law_latest_start_names_meeting(
    events: Seq<CalendarEvent>,
    now: i64,
    i: int,
    j: int,
)
    requires
        names_meeting(events, now, i),
        0 <= j < events.len(),
        is_meeting_slot(events[j], now),
    ensures
        0 <= i < events.len(),
        is_meeting_slot(events[i], now),
        events[j].starts <= events[i].starts,
        events[j].starts == events[i].starts ==> i <= j,
{
    lemma_eligible(events[i], now);
    lemma_eligible(events[j], now);
}

proof fn lemma_latest(events: Seq<CalendarEvent>, now: i64, n: int) -> (best: int)
    requires
        0 <= n <= events.len(),
        exists|j: int| 0 <= j < n && is_meeting_slot(#[trigger] events[j], now),
    ensures
        0 <= best < n,
        is_meeting_slot(events[best], now),
        forall|j: int|
            0 <= j < n && is_meeting_slot(#[trigger] events[j], now) ==> events[j].starts
                < events[best].starts || (events[j].starts == events[best].starts && best <= j),
    decreases n,
{
    let last: int = n - 1;
    if exists|j: int| 0 <= j < last && is_meeting_slot(#[trigger] events[j], now) {
        let b: int = lemma_latest(events, now, last);
        if is_meeting_slot(events[last], now) && events[last].starts > events[b].starts {
            last
        } else {
            b
        }
    } else {
        last
    }
}

/// Where there is a meeting slot, some event names the meeting; where there is
/// none, no event does.
pub proof fn law_some_slot_names_meeting(events: Seq<CalendarEvent>, now: i64)
    ensures
        (exists|i: int| #[trigger] names_meeting(events, now, i)) <==> (exists|j: int|
            0 <= j < events.len() && is_meeting_slot(#[trigger] events[j], now)),
        (forall|j: int| 0 <= j < events.len() ==> !eligible(#[trigger] events[j], now)) <==> (
        forall|j: int| 0 <= j < events.len() ==> !is_meeting_slot(#[trigger] events[j], now)),
{
    assert forall|j: int| 0 <= j < events.len() implies eligible(#[trigger] events[j], now)
        == is_meeting_slot(events[j], now) by {
        lemma_eligible(events[j], now);
    }
    if exists|i: int| #[trigger] names_meeting(events, now, i) {
        let i: int = choose|i: int| #[trigger] names_meeting(events, now, i);
        assert(is_meeting_slot(events[i], now));
    }
    if exists|j: int| 0 <= j < events.len() && is_meeting_slot(#[trigger] events[j], now) {
        let best: int = lemma_latest(events, now, events.len() as int);
        assert(names_meeting(events, now, best));
    }
}

/// A slot that starts before another does not matter: taking it away does not
/// change which title names the meeting.
pub proof fn law_earlier_slots_do_not_matter(
    events: Seq<CalendarEvent>,
    now: i64,
    i: int,
    earlier: int,
)
    requires
        names_meeting(events, now, i),
        0 <= earlier < events.len(),
        events[earlier].starts < events[i].starts,
    ensures
        names_meeting(
            events.remove(earlier),
            now,
            if earlier < i {
                i - 1
            } else {
                i
            },
        ),
{
    let rest = events.remove(earlier);
    let k: int = if earlier < i {
        i - 1
    } else {
        i
    };
    assert(rest[k] == events[i]);
    assert forall|j: int| 0 <= j < rest.len() && eligible(#[trigger] rest[j], now) implies rest[
        j
    ].starts < rest[k].starts || (rest[j].starts == rest[k].starts && k <= j) by {
        let l: int = if j < earlier {
            j
        } else {
            j + 1
        };
        assert(rest[j] == events[l]);
        assert(eligible(events[l], now));
    }
}

/// The store may be read only with full access: a user who was not asked, or
/// has given any other access, has not granted it.
pub proof fn law_only_full_access_is_granted(status: i64)
    ensures
        access_for(status) == CalendarAccess::Granted <==> status == 3,
        access_for(status) == CalendarAccess::NotDetermined <==> status == 0,
        access_for(status) == CalendarAccess::Denied <==> status != 0 && status != 3,
        access_after(PromptReply::TimedOut { status }) == access_for(status),
        access_after(PromptReply::Answered { granted: true }) == CalendarAccess::Granted,
        access_after(PromptReply::Answered { granted: false }) == CalendarAccess::Denied,
{
}

/// A calendar is shown under its own identifier and title, with the title of its
/// account where it has one.
pub proof fn law_calendar_is_shown_as_it_is(info: CalendarInfo, calendar: StoreCalendar)
    requires
        shows(info, calendar),
    ensures
        info.id@ == calendar.id@,
        info.title@ == calendar.title@,
        calendar.source matches Some(source) ==> info.source@ == source@,
        calendar.source is None ==> info.source@.len() == 0,
{
}

/// The search is narrowed to exactly the calendars that the user has chosen.
pub proof fn law_search_is_narrowed_to_chosen(
    chosen: Seq<usize>,
    all: Seq<String>,
    wanted: Seq<String>,
    i: usize,
)
    requires
        selects(chosen, all, wanted),
    ensures
        chosen.contains(i) <==> i < all.len() && exists|w: int|
            0 <= w < wanted.len() && (#[trigger] wanted[w])@ == all[i as int]@,
        chosen.no_duplicates(),
{
    if i < all.len() && names(wanted, all[i as int]) {
        let k: int = choose|k: int| 0 <= k < chosen.len() && #[trigger] chosen[k] == i as int;
        assert(chosen[k] == i);
    }
}

/// The user has two minutes to answer the permission prompt, and events are
/// looked for from four hours before now on.
pub proof fn law_prompt_and_search_are_limited()
    ensures
        PROMPT_TIMEOUT_SECS == 2 * 60,
        SEARCH_WINDOW_SECS == 4 * 60 * 60,
{
}

} // verus!
