use meeting_assistant::calendar::{eventkit, unsupported, CalendarAccess};
use meeting_assistant::calendar::eventkit::{
    AccessRequest, CalendarEvent, PromptReply, StoreCalendar,
};

fn ids(list: &[&str]) -> Vec<String> {
    list.iter().map(|s| s.to_string()).collect()
}

fn event(title: &str, all_day: bool, starts: i64, ends: i64) -> CalendarEvent {
    CalendarEvent { title: title.to_string(), all_day, starts, ends }
}

fn title_at(events: &[CalendarEvent], now: i64) -> Option<String> {
    eventkit::current_event_title(CalendarAccess::Granted, events, now)
}

#[test]
fn store_is_read_only_with_access() {
    assert!(eventkit::may_read(CalendarAccess::Granted));
    assert!(!eventkit::may_read(CalendarAccess::NotDetermined));
    assert!(!eventkit::may_read(CalendarAccess::Denied));
    assert!(!eventkit::may_read(CalendarAccess::Unsupported));
}

#[test]
fn nothing_where_there_is_no_store() {
    assert_eq!(unsupported::access_status(), CalendarAccess::Unsupported);
    assert_eq!(unsupported::request_access(), CalendarAccess::Unsupported);
    assert!(unsupported::list_calendars().is_empty());
    assert_eq!(unsupported::current_event_title(&ids(&["work"])), None);
}

#[test]
fn only_full_access_counts() {
    assert_eq!(eventkit::access_status(0), CalendarAccess::NotDetermined);
    assert_eq!(eventkit::access_status(1), CalendarAccess::Denied);
    assert_eq!(eventkit::access_status(2), CalendarAccess::Denied);
    assert_eq!(eventkit::access_status(3), CalendarAccess::Granted);
    assert_eq!(eventkit::access_status(4), CalendarAccess::Denied);
    assert_eq!(eventkit::access_status(-1), CalendarAccess::Denied);
}

#[test]
fn users_are_asked_once() {
    assert_eq!(
        eventkit::request_access(CalendarAccess::NotDetermined),
        AccessRequest::Prompt { timeout_secs: 120 }
    );
    for access in [
        CalendarAccess::Granted,
        CalendarAccess::Denied,
        CalendarAccess::Unsupported,
    ] {
        assert_eq!(eventkit::request_access(access), AccessRequest::Settled(access));
    }
}

#[test]
fn prompt_replies() {
    assert_eq!(
        eventkit::prompt_outcome(PromptReply::Answered { granted: true }),
        CalendarAccess::Granted
    );
    assert_eq!(
        eventkit::prompt_outcome(PromptReply::Answered { granted: false }),
        CalendarAccess::Denied
    );
    assert_eq!(
        eventkit::prompt_outcome(PromptReply::TimedOut { status: 0 }),
        CalendarAccess::NotDetermined
    );
    assert_eq!(
        eventkit::prompt_outcome(PromptReply::TimedOut { status: 3 }),
        CalendarAccess::Granted
    );
}

#[test]
fn calendars_are_listed_in_order() {
    let store = [
        StoreCalendar {
            id: "1".to_string(),
            title: "Work".to_string(),
            source: Some("Google".to_string()),
        },
        StoreCalendar { id: "2".to_string(), title: "Home".to_string(), source: None },
    ];
    let list = eventkit::list_calendars(CalendarAccess::Granted, &store);
    assert_eq!(list.len(), 2);
    assert_eq!((list[0].id.as_str(), list[0].source.as_str()), ("1", "Google"));
    assert_eq!((list[1].title.as_str(), list[1].source.as_str()), ("Home", ""));
    assert!(eventkit::list_calendars(CalendarAccess::Denied, &store).is_empty());
}

#[test]
fn chosen_calendars_narrow_the_search() {
    let all = ids(&["a", "b", "c"]);
    assert_eq!(eventkit::calendar_filter(&all, &ids(&["c", "a"])), Some(vec![0, 2]));
    assert_eq!(eventkit::calendar_filter(&all, &ids(&["c", "gone"])), Some(vec![2]));
    assert_eq!(eventkit::calendar_filter(&all, &ids(&["gone"])), None);
    assert_eq!(eventkit::calendar_filter(&all, &[]), None);
    assert_eq!(eventkit::calendar_filter(&[], &ids(&["a"])), None);
}

#[test]
fn latest_start_wins() {
    let events = [
        event("Block", false, 0, 100),
        event("Meeting", false, 40, 60),
        event("Other", false, 40, 60),
    ];
    assert_eq!(title_at(&events, 50), Some("Meeting".to_string()));
    assert_eq!(title_at(&events, 39), Some("Block".to_string()));
    assert_eq!(title_at(&events, 60), Some("Meeting".to_string()));
    assert_eq!(title_at(&events, 61), Some("Block".to_string()));
    assert_eq!(title_at(&events, 101), None);
    assert_eq!(title_at(&events, -1), None);
}

#[test]
fn all_day_and_untitled_events_do_not_count() {
    let events = [
        event("Holiday", true, 0, 100),
        event("  \n", false, 20, 100),
        event("  Review ", false, 10, 100),
    ];
    assert_eq!(title_at(&events, 50), Some("Review".to_string()));
}

#[test]
fn no_title_without_access() {
    let events = [event("Meeting", false, 0, 100)];
    for access in [
        CalendarAccess::NotDetermined,
        CalendarAccess::Denied,
        CalendarAccess::Unsupported,
    ] {
        assert_eq!(eventkit::current_event_title(access, &events, 50), None);
    }
}
