//! A run of the monitor: what it makes of each poll, and when it starts and
//! stops a recording on its own.
//!
//! Times are nanoseconds of a clock that never runs backwards, counted from the
//! start of the run.

use vstd::prelude::*;
use vstd::string::*;

use crate::detector::DetectedMeeting;
use crate::detector::MeetingDetector;
use crate::recording;
use crate::settings::MeetingDetectionSettings;
use crate::text;

verus! {

/// Seconds after an automatic start within which the recording has to begin.
/// If it has not, the start has failed (model not ready, device error). The
/// window that would say so is normally hidden in the tray, so without this
/// limit a failed start would be silent.
pub const AUTO_START_TIMEOUT_SECS: u64 = 60;

/// Seconds that the search for a calendar entry may take. A slow search must
/// not delay the recording.
pub const TITLE_TIMEOUT_SECS: u64 = 3;

/// Nanoseconds in a second.
pub const NANOS_PER_SEC: u128 = 1_000_000_000;

/// A notification of the operating system.
#[derive(Debug)]
pub struct Notification {
    pub title: String,
    pub body: String,
}

/// What a run of the monitor remembers from poll to poll.
#[derive(Debug)]
pub struct MonitorLoop {
    /// The generation that the run was started with.
    pub generation: u64,
    /// The settings that the poll in progress goes by.
    pub settings: MeetingDetectionSettings,
    pub was_in_meeting: bool,
    /// When the meeting process was first found gone, while the run waits out
    /// the grace period in case it is a drop-and-rejoin.
    pub pending_stop_since: Option<u64>,
    /// Whether the automatically started recording was seen running. Tells a
    /// recording that the user stopped from one that has not begun yet.
    pub auto_recording_observed: bool,
    /// By when the automatically started recording has to begin.
    pub auto_start_deadline: Option<u128>,
}

/// What to do when the monitor wakes.
#[derive(Debug, Clone, Copy, PartialEq, Eq, Structural)]
pub enum Wake {
    /// The run is over.
    Exit,
    /// Detection is disabled: sleep.
    Sleep { secs: u64 },
    /// Poll, and first find out whether something is being recorded, if asked.
    Poll { ask_recording: bool },
}

/// What became of the recording that the monitor had started.
#[derive(Debug)]
pub enum Watch {
    /// Nothing new.
    Unchanged,
    /// The user stopped it: whatever is recorded next is the user's.
    Released,
    /// It never began. Put the tray right and tell the user.
    GaveUp { notice: Notification },
}

/// What a poll has found out.
#[derive(Debug)]
pub enum Observation {
    /// No meeting, as before.
    Idle,
    /// A meeting has started. Report it, notify the user if there is a notice,
    /// and go on to start a recording if asked.
    Started { meeting: DetectedMeeting, notice: Option<Notification>, auto_start: bool },
    /// The meeting goes on.
    Continuing,
    /// The meeting process is gone, but not for long enough.
    Waiting,
    /// The meeting has ended. Report it, and stop the recording if asked.
    Ended { auto_stop: bool },
}

/// How to start a recording for a meeting.
#[derive(Debug)]
pub struct AutoStartPlan {
    /// What to call the recording.
    pub meeting_name: String,
    /// The application of the meeting.
    pub app_name: String,
    /// What to run in the main window, in order.
    pub scripts: Vec<String>,
}

/// The title of the notification that a recording did not start.
pub const START_FAILED_TITLE: &'static str = "Meetily couldn't start recording";

/// The body of the notification that a recording did not start.
pub const START_FAILED_BODY: &'static str =
    "A meeting was detected but recording didn't start. Open Meetily to record it.";

/// The body of the notification of a meeting that is being recorded.
pub const STARTING_BODY: &'static str = "Meetily is starting a recording";

/// The body of the notification of a meeting that is not being recorded.
pub const RECORD_IT_BODY: &'static str = "Open Meetily to record this meeting";

/// `notice` tells that a meeting of the application `app_name` was detected.
pub open spec fn announces(
    notice: Notification,
    app_name: Seq<char>,
    settings: MeetingDetectionSettings,
) -> bool {
    &&& notice.title@ == app_name + " Meeting Detected"@
    &&& notice.body@ == if settings.auto_start_recording {
        STARTING_BODY@
    } else {
        RECORD_IT_BODY@
    }
}

/// A run that begins.
pub open spec fn new_run(generation: u64, settings: MeetingDetectionSettings) -> MonitorLoop {
    MonitorLoop {
        generation,
        settings,
        was_in_meeting: false,
        pending_stop_since: None,
        auto_recording_observed: false,
        auto_start_deadline: None,
    }
}

/// What a run with `generation` does when it wakes.
pub open spec fn woken(detector: MeetingDetector, generation: u64) -> Wake {
    if !crate::detector::runs(detector, generation) {
        Wake::Exit
    } else if !detector.settings.enabled {
        Wake::Sleep { secs: detector.settings.poll_interval_secs }
    } else {
        Wake::Poll { ask_recording: detector.auto_recording_active }
    }
}

/// The time by which a recording started at `now` has to begin.
pub open spec fn deadline_after(now: u64) -> u128 {
    (now + AUTO_START_TIMEOUT_SECS * NANOS_PER_SEC) as u128
}

/// The recording that the monitor had started never began, and now it is too
/// late.
pub open spec fn start_failed(run: MonitorLoop, recording: Option<bool>, now: u64) -> bool {
    &&& recording == Some(false)
    &&& !run.auto_recording_observed
    &&& run.auto_start_deadline matches Some(deadline) && now >= deadline
}

/// The recording that the monitor had started was seen running, and does not
/// run any more.
pub open spec fn stopped_by_user(run: MonitorLoop, recording: Option<bool>) -> bool {
    recording == Some(false) && run.auto_recording_observed
}

/// The run once it was told whether something is recorded; `None` where it had
/// no recording of its own and did not ask.
pub open spec fn watched(run: MonitorLoop, recording: Option<bool>, now: u64) -> MonitorLoop {
    match recording {
        Some(true) => MonitorLoop {
            auto_recording_observed: true,
            auto_start_deadline: None,
            ..run
        },
        Some(false) => if run.auto_recording_observed {
            MonitorLoop { auto_recording_observed: false, ..run }
        } else if start_failed(run, recording, now) {
            MonitorLoop { auto_start_deadline: None, ..run }
        } else {
            run
        },
        None => MonitorLoop { auto_recording_observed: false, auto_start_deadline: None, ..run },
    }
}

/// The detector once the run was told whether something is recorded.
pub open spec fn watched_detector(
    detector: MeetingDetector,
    run: MonitorLoop,
    recording: Option<bool>,
    now: u64,
) -> MeetingDetector {
    if stopped_by_user(run, recording) || start_failed(run, recording, now) {
        MeetingDetector { auto_recording_active: false, ..detector }
    } else {
        detector
    }
}

/// When the meeting process was first found gone, if it is gone now.
pub open spec fn gone_since(run: MonitorLoop, now: u64) -> u64 {
    match run.pending_stop_since {
        Some(since) => since,
        None => now,
    }
}

/// Nothing is left of the grace period.
pub open spec fn grace_is_over(run: MonitorLoop, now: u64) -> bool {
    now - gone_since(run, now) >= run.settings.auto_stop_grace_secs * NANOS_PER_SEC
        || run.settings.auto_stop_grace_secs == 0
}

/// The poll finds that the meeting has ended.
pub open spec fn ends(run: MonitorLoop, meeting: Option<DetectedMeeting>, now: u64) -> bool {
    run.was_in_meeting && meeting is None && grace_is_over(run, now)
}

/// The poll finds that a meeting has started.
pub open spec fn starts(run: MonitorLoop, meeting: Option<DetectedMeeting>) -> bool {
    !run.was_in_meeting && meeting is Some
}

/// The run once it has seen what meeting there is.
pub open spec fn observed(
    run: MonitorLoop,
    meeting: Option<DetectedMeeting>,
    now: u64,
) -> MonitorLoop {
    match meeting {
        Some(_) => MonitorLoop { was_in_meeting: true, pending_stop_since: None, ..run },
        None => if !run.was_in_meeting {
            run
        } else if grace_is_over(run, now) {
            MonitorLoop { was_in_meeting: false, pending_stop_since: None, ..run }
        } else {
            MonitorLoop { pending_stop_since: Some(gone_since(run, now)), ..run }
        },
    }
}

/// The meeting on record once a poll has seen `seen` while a meeting was on: a
/// meeting of the same application stays as it was first seen.
pub open spec fn refreshed(
    current: Option<DetectedMeeting>,
    seen: DetectedMeeting,
) -> Option<DetectedMeeting> {
    match current {
        Some(known) => if known.app_name@ == seen.app_name@ {
            current
        } else {
            Some(seen)
        },
        None => Some(seen),
    }
}

/// The detector once the run has seen what meeting there is.
pub open spec fn observed_detector(
    detector: MeetingDetector,
    run: MonitorLoop,
    meeting: Option<DetectedMeeting>,
    now: u64,
) -> MeetingDetector {
    match meeting {
        Some(seen) => MeetingDetector {
            current_meeting: if run.was_in_meeting {
                refreshed(detector.current_meeting, seen)
            } else {
                Some(seen)
            },
            ..detector
        },
        None => if ends(run, meeting, now) {
            MeetingDetector { current_meeting: None, ..detector }
        } else {
            detector
        },
    }
}

/// What a poll says when it ends a meeting: stop the recording if that is
/// wanted and the recording is one that the monitor started.
pub open spec fn stops_recording(detector: MeetingDetector, run: MonitorLoop) -> bool {
    run.settings.auto_stop_recording && detector.auto_recording_active
}

/// The run once it has started a recording at `now`.
pub open spec fn auto_started(run: MonitorLoop, now: u64) -> MonitorLoop {
    MonitorLoop {
        auto_recording_observed: false,
        auto_start_deadline: Some(deadline_after(now)),
        ..run
    }
}

/// The notification that a recording did not start.
fn start_failed_notice() -> (res: Notification)
    ensures
        res.title@ == START_FAILED_TITLE@,
        res.body@ == START_FAILED_BODY@,
{
    Notification { title: START_FAILED_TITLE.to_owned(), body: START_FAILED_BODY.to_owned() }
}

/// The notification that a meeting of the application `app_name` was detected.
pub fn meeting_notice(app_name: &str, settings: &MeetingDetectionSettings) -> (res: Notification)
    ensures
        announces(res, app_name@, *settings),
{
    let body = if settings.auto_start_recording {
        STARTING_BODY
    } else {
        RECORD_IT_BODY
    };
    Notification { title: text::joined(app_name, " Meeting Detected"), body: body.to_owned() }
}

/// How to start a recording for a meeting of the application `app_name`, under
/// the title that was found for it in time, if any.
pub fn plan_auto_start(app_name: &str, title: Option<String>) -> (res: AutoStartPlan)
    ensures
        res.meeting_name@ == recording::recording_name(app_name@, title),
        res.app_name@ == app_name@,
        res.scripts@.map_values(|script: String| script@) == seq![
            recording::START_FLAG_SCRIPT@,
            recording::title_script(res.meeting_name@),
            recording::HOME_SCRIPT@,
        ],
{
    let meeting_name = recording::name_recording(app_name, title);
    let scripts = recording::trigger_auto_start(meeting_name.as_str());
    AutoStartPlan { meeting_name, app_name: app_name.to_owned(), scripts }
}

impl MonitorLoop {
    /// The run pauses between polls, waits for a meeting process to come back
    /// only during a meeting, and for a recording to begin only until it was
    /// seen running.
    pub open spec fn wf(self) -> bool {
        &&& self.settings.wf()
        &&& self.pending_stop_since is Some ==> self.was_in_meeting
        &&& self.auto_start_deadline is Some ==> !self.auto_recording_observed
    }

    /// Starts monitoring, unless it is active already.
    pub fn start_monitoring(detector: &mut MeetingDetector) -> (res: Option<MonitorLoop>)
        ensures
            *final(detector) == crate::detector::started(*old(detector)),
            match res {
                Some(run) => !old(detector).is_monitoring && run == new_run(
                    final(detector).monitor_generation,
                    old(detector).settings,
                ) && crate::detector::runs(*final(detector), run.generation),
                None => old(detector).is_monitoring,
            },
            old(detector).wf() ==> final(detector).wf() && (res matches Some(run) ==> run.wf()),
    {
        match detector.start_monitoring() {
            Some(generation) => Some(
                MonitorLoop {
                    generation,
                    settings: detector.get_settings(),
                    was_in_meeting: false,
                    pending_stop_since: None,
                    auto_recording_observed: false,
                    auto_start_deadline: None,
                },
            ),
            None => None,
        }
    }

    /// What to do now that the run wakes. A poll goes by the settings of the
    /// moment in which it began.
    pub fn wake(&mut self, detector: &MeetingDetector) -> (res: Wake)
        ensures
            res == woken(*detector, old(self).generation),
            *final(self) == if res is Exit {
                *old(self)
            } else {
                MonitorLoop { settings: detector.settings, ..*old(self) }
            },
            old(self).wf() && detector.wf() ==> final(self).wf() && (res matches Wake::Sleep {
                secs,
            } ==> secs > 0),
    {
        if !detector.runs(self.generation) {
            return Wake::Exit;
        }
        self.settings = detector.get_settings();
        if !self.settings.enabled {
            return Wake::Sleep { secs: self.settings.poll_interval_secs };
        }
        Wake::Poll { ask_recording: detector.auto_recording_active }
    }

    /// Looks after the recording that the monitor had started. `recording` says
    /// whether something is recorded at the time `now`, or nothing where the
    /// monitor had no recording of its own.
    pub fn watch_recording(
        &mut self,
        detector: &mut MeetingDetector,
        recording: Option<bool>,
        now: u64,
    ) -> (res: Watch)
        ensures
            *final(self) == watched(*old(self), recording, now),
            *final(detector) == watched_detector(*old(detector), *old(self), recording, now),
            old(self).wf() ==> final(self).wf(),
            old(detector).wf() ==> final(detector).wf(),
            match res {
                Watch::Unchanged => !stopped_by_user(*old(self), recording) && !start_failed(
                    *old(self),
                    recording,
                    now,
                ),
                Watch::Released => stopped_by_user(*old(self), recording),
                Watch::GaveUp { notice } => start_failed(*old(self), recording, now)
                    && notice.title@ == START_FAILED_TITLE@ && notice.body@ == START_FAILED_BODY@,
            },
    {
        match recording {
            Some(active) => {
                if active {
                    self.auto_recording_observed = true;
                    self.auto_start_deadline = None;
                    return Watch::Unchanged;
                }
                if self.auto_recording_observed {
                    detector.release_recording();
                    self.auto_recording_observed = false;
                    return Watch::Released;
                }
                if let Some(deadline) = self.auto_start_deadline {
                    if now as u128 >= deadline {
                        detector.release_recording();
                        self.auto_start_deadline = None;
                        return Watch::GaveUp { notice: start_failed_notice() };
                    }
                }
                Watch::Unchanged
            },
            None => {
                self.auto_recording_observed = false;
                self.auto_start_deadline = None;
                Watch::Unchanged
            },
        }
    }

    /// Takes in what meeting the poll has seen at the time `now`, if any.
    pub fn observe(
        &mut self,
        detector: &mut MeetingDetector,
        meeting: Option<DetectedMeeting>,
        now: u64,
    ) -> (res: Observation)
        ensures
            *final(self) == observed(*old(self), meeting, now),
            *final(detector) == observed_detector(*old(detector), *old(self), meeting, now),
            old(self).wf() ==> final(self).wf(),
            old(detector).wf() ==> final(detector).wf(),
            match meeting {
                Some(seen) => if old(self).was_in_meeting {
                    res is Continuing
                } else {
                    &&& res matches Observation::Started { meeting: reported, notice, auto_start }
                    &&& reported == seen
                    &&& auto_start == old(self).settings.auto_start_recording
                    &&& notice is Some <==> old(self).settings.notify_on_detection
                    &&& notice matches Some(n) ==> announces(
                        n,
                        seen.app_name@,
                        old(self).settings,
                    )
                },
                None => if !old(self).was_in_meeting {
                    res is Idle
                } else if ends(*old(self), meeting, now) {
                    res == (Observation::Ended {
                        auto_stop: stops_recording(*old(detector), *old(self)),
                    })
                } else {
                    res is Waiting
                },
            },
    {
        match meeting {
            Some(seen) => {
                if !self.was_in_meeting {
                    let notice = if self.settings.notify_on_detection {
                        Some(meeting_notice(seen.app_name.as_str(), &self.settings))
                    } else {
                        None
                    };
                    detector.current_meeting = Some(seen.clone());
                    self.was_in_meeting = true;
                    self.pending_stop_since = None;
                    return Observation::Started {
                        meeting: seen,
                        notice,
                        auto_start: self.settings.auto_start_recording,
                    };
                }
                self.pending_stop_since = None;
                let known = match &detector.current_meeting {
                    Some(current) => current.app_name == seen.app_name,
                    None => false,
                };
                if !known {
                    detector.current_meeting = Some(seen);
                }
                Observation::Continuing
            },
            None => {
                if !self.was_in_meeting {
                    return Observation::Idle;
                }
                let grace: u128 = self.settings.auto_stop_grace_secs as u128 * NANOS_PER_SEC;
                let since: u64 = match self.pending_stop_since {
                    Some(since) => since,
                    None => now,
                };
                let elapsed: u64 = now.saturating_sub(since);
                if elapsed as u128 >= grace {
                    self.pending_stop_since = None;
                    detector.current_meeting = None;
                    self.was_in_meeting = false;
                    return Observation::Ended {
                        auto_stop: self.settings.auto_stop_recording
                            && detector.auto_recording_active,
                    };
                }
                self.pending_stop_since = Some(since);
                Observation::Waiting
            },
        }
    }

    /// Takes in that a recording was started at the time `now`. It is the
    /// monitor's own from now on, and has to begin before long.
    pub fn auto_start(&mut self, detector: &mut MeetingDetector, now: u64)
        ensures
            *final(self) == auto_started(*old(self), now),
            *final(detector) == (MeetingDetector { auto_recording_active: true, ..*old(detector) }),
            old(self).wf() ==> final(self).wf(),
            old(detector).wf() ==> final(detector).wf(),
    {
        detector.auto_recording_active = true;
        self.auto_recording_observed = false;
        self.auto_start_deadline =
        Some(now as u128 + AUTO_START_TIMEOUT_SECS as u128 * NANOS_PER_SEC);
    }

    /// How many seconds to sleep before the next poll.
    pub fn pause_secs(&self) -> (res: u64)
        ensures
            res == self.settings.poll_interval_secs,
            self.wf() ==> res > 0,
    {
        self.settings.poll_interval_secs
    }
}

} // verus!
