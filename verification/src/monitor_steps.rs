//! The monitor step by step: it is told what happened, and says what to do.
//!
//! Of the actions that a step asks for, the last is one that brings the next
//! event; whoever runs the monitor performs the actions in order and hands that
//! event back.

use vstd::prelude::*;
use vstd::string::*;

use crate::detector::DetectedMeeting;
use crate::detector::MeetingDetector;
use crate::monitor;
use crate::monitor::AutoStartPlan;
use crate::monitor::MonitorLoop;
use crate::monitor::Notification;
use crate::monitor::Observation;
use crate::monitor::Wake;
use crate::monitor::Watch;
use crate::monitor_laws;
use crate::recording;

verus! {

/// What the monitor waits for.
#[derive(Debug)]
pub enum Phase {
    /// The end of a pause between polls.
    Sleeping,
    /// Whether its own recording runs.
    AskedRecording,
    /// What meeting there is.
    Scanning,
    /// Whether something is recorded already, before it starts a recording for
    /// a meeting of the application.
    AskedBeforeStart { app_name: String },
    /// A title for the recording of a meeting of the application.
    FindingTitle { app_name: String },
    /// The start of the recording that it has asked for to be performed.
    Starting,
    /// The end of the recording that it has asked to stop.
    Stopping,
    /// Nothing: the run is over.
    Over,
}

/// What happens to the monitor.
#[derive(Debug)]
pub enum MonitorEvent {
    /// A pause is over, or the run begins.
    Woke,
    /// Whether something is recorded.
    Recording { active: bool, now: u64 },
    /// What meeting there is, if any.
    Scanned { meeting: Option<DetectedMeeting>, now: u64 },
    /// The title that was found in time, if any.
    Title { title: Option<String> },
    /// The start of a recording was performed.
    Started { now: u64 },
    /// The recording was stopped.
    Stopped,
}

/// What the monitor asks for.
#[derive(Debug)]
pub enum MonitorAction {
    /// End the run.
    Exit,
    /// Pause; then it woke.
    Sleep { secs: u64 },
    /// Find out whether something is recorded.
    AskRecording,
    /// Look through the running processes for a meeting.
    Scan,
    /// Compute the tray menu anew from what is the case.
    RefreshTray,
    /// Show a notification of the operating system. The window is normally
    /// hidden in the tray, so nothing less would be seen.
    Notify { notice: Notification },
    /// Tell the frontend that a meeting was detected.
    EmitMeetingDetected { meeting: DetectedMeeting },
    /// Look for the title of the calendar event that is on now, for so many
    /// seconds at most.
    FindTitle { timeout_secs: u64 },
    /// Tell the frontend that a recording is started, and perform the start.
    StartRecording { plan: AutoStartPlan },
    /// Tell the frontend that the meeting has ended.
    EmitMeetingEnded,
    /// Tell the frontend that the recording is stopped, and stop it.
    StopRecording,
}

/// What the monitor asks for, by content.
pub enum ActionModel {
    Exit,
    Sleep { secs: u64 },
    AskRecording,
    Scan,
    RefreshTray,
    Notify { title: Seq<char>, body: Seq<char> },
    EmitMeetingDetected { meeting: DetectedMeeting },
    FindTitle { timeout_secs: u64 },
    StartRecording { meeting_name: Seq<char>, app_name: Seq<char>, scripts: Seq<Seq<char>> },
    EmitMeetingEnded,
    StopRecording,
}

impl View for MonitorAction {
    type V = ActionModel;

    open spec fn view(&self) -> ActionModel {
        match *self {
            MonitorAction::Exit => ActionModel::Exit,
            MonitorAction::Sleep { secs } => ActionModel::Sleep { secs },
            MonitorAction::AskRecording => ActionModel::AskRecording,
            MonitorAction::Scan => ActionModel::Scan,
            MonitorAction::RefreshTray => ActionModel::RefreshTray,
            MonitorAction::Notify { notice } => ActionModel::Notify {
                title: notice.title@,
                body: notice.body@,
            },
            MonitorAction::EmitMeetingDetected { meeting } => ActionModel::EmitMeetingDetected {
                meeting,
            },
            MonitorAction::FindTitle { timeout_secs } => ActionModel::FindTitle { timeout_secs },
            MonitorAction::StartRecording { plan } => ActionModel::StartRecording {
                meeting_name: plan.meeting_name@,
                app_name: plan.app_name@,
                scripts: plan.scripts@.map_values(|script: String| script@),
            },
            MonitorAction::EmitMeetingEnded => ActionModel::EmitMeetingEnded,
            MonitorAction::StopRecording => ActionModel::StopRecording,
        }
    }
}

/// Actions, by content.
pub open spec fn contents(actions: Seq<MonitorAction>) -> Seq<ActionModel> {
    actions.map_values(|action: MonitorAction| action@)
}

/// A run of the monitor and what it waits for.
#[derive(Debug)]
pub struct Monitor {
    pub run: MonitorLoop,
    pub phase: Phase,
}

/// `event` is what a monitor in `phase` waits for.
pub open spec fn awaits(phase: Phase, event: MonitorEvent) -> bool {
    match phase {
        Phase::Sleeping => event is Woke,
        Phase::AskedRecording => event is Recording,
        Phase::Scanning => event is Scanned,
        Phase::AskedBeforeStart { .. } => event is Recording,
        Phase::FindingTitle { .. } => event is Title,
        Phase::Starting => event is Started,
        Phase::Stopping => event is Stopped,
        Phase::Over => false,
    }
}

/// The event that an action brings, if it brings one, is what a monitor in
/// `phase` waits for.
pub open spec fn brings_awaited(action: ActionModel, phase: Phase) -> bool {
    match action {
        ActionModel::Exit => phase is Over,
        ActionModel::Sleep { .. } => phase is Sleeping,
        ActionModel::AskRecording => phase is AskedRecording || phase is AskedBeforeStart,
        ActionModel::Scan => phase is Scanning,
        ActionModel::FindTitle { .. } => phase is FindingTitle,
        ActionModel::StartRecording { .. } => phase is Starting,
        ActionModel::StopRecording => phase is Stopping,
        _ => false,
    }
}

/// A pause between polls.
pub open spec fn pause(run: MonitorLoop) -> ActionModel {
    ActionModel::Sleep { secs: run.settings.poll_interval_secs }
}

/// What is asked for when a meeting has started.
pub open spec fn start_actions(run: MonitorLoop, meeting: DetectedMeeting) -> Seq<ActionModel> {
    seq![ActionModel::EmitMeetingDetected { meeting }] + (if run.settings.notify_on_detection {
        seq![
            ActionModel::Notify {
                title: meeting.app_name@ + " Meeting Detected"@,
                body: if run.settings.auto_start_recording {
                    monitor::STARTING_BODY@
                } else {
                    monitor::RECORD_IT_BODY@
                },
            },
        ]
    } else {
        Seq::empty()
    }) + seq![
        if run.settings.auto_start_recording {
            ActionModel::AskRecording
        } else {
            pause(run)
        },
    ]
}

/// What a monitor in `phase` asks for when `event` happens.
pub open spec fn actions_on(
    phase: Phase,
    run: MonitorLoop,
    detector: MeetingDetector,
    event: MonitorEvent,
) -> Seq<ActionModel> {
    match (phase, event) {
        (Phase::Sleeping, MonitorEvent::Woke) => match monitor::woken(detector, run.generation) {
            Wake::Exit => seq![ActionModel::Exit],
            Wake::Sleep { secs } => seq![ActionModel::Sleep { secs }],
            Wake::Poll { ask_recording } => if ask_recording {
                seq![ActionModel::AskRecording]
            } else {
                seq![ActionModel::Scan]
            },
        },
        (Phase::AskedRecording, MonitorEvent::Recording { active, now }) => if monitor::start_failed(
            run,
            Some(active),
            now,
        ) {
            seq![
                ActionModel::RefreshTray,
                ActionModel::Notify {
                    title: monitor::START_FAILED_TITLE@,
                    body: monitor::START_FAILED_BODY@,
                },
                ActionModel::Scan,
            ]
        } else {
            seq![ActionModel::Scan]
        },
        (Phase::Scanning, MonitorEvent::Scanned { meeting, now }) => match meeting {
            Some(seen) => if run.was_in_meeting {
                seq![pause(run)]
            } else {
                start_actions(run, seen)
            },
            None => if monitor::ends(run, meeting, now) {
                seq![
                    ActionModel::EmitMeetingEnded,
                    if monitor::stops_recording(detector, run) {
                        ActionModel::StopRecording
                    } else {
                        pause(run)
                    },
                ]
            } else {
                seq![pause(run)]
            },
        },
        (Phase::AskedBeforeStart { .. }, MonitorEvent::Recording { active, .. }) => if active {
            seq![pause(run)]
        } else {
            seq![ActionModel::FindTitle { timeout_secs: monitor::TITLE_TIMEOUT_SECS }]
        },
        (Phase::FindingTitle { app_name }, MonitorEvent::Title { title }) => {
            let name = recording::recording_name(app_name@, title);
            seq![
                ActionModel::StartRecording {
                    meeting_name: name,
                    app_name: app_name@,
                    scripts: seq![
                        recording::START_FLAG_SCRIPT@,
                        recording::title_script(name),
                        recording::HOME_SCRIPT@,
                    ],
                },
            ]
        },
        (Phase::Starting, MonitorEvent::Started { .. }) => seq![pause(run)],
        (Phase::Stopping, MonitorEvent::Stopped) => seq![pause(run)],
        _ => Seq::empty(),
    }
}

/// What a monitor in `phase` waits for once `event` has happened.
pub open spec fn phase_on(
    phase: Phase,
    run: MonitorLoop,
    detector: MeetingDetector,
    event: MonitorEvent,
) -> Phase {
    match (phase, event) {
        (Phase::Sleeping, MonitorEvent::Woke) => match monitor::woken(detector, run.generation) {
            Wake::Exit => Phase::Over,
            Wake::Sleep { .. } => Phase::Sleeping,
            Wake::Poll { ask_recording } => if ask_recording {
                Phase::AskedRecording
            } else {
                Phase::Scanning
            },
        },
        (Phase::AskedRecording, MonitorEvent::Recording { .. }) => Phase::Scanning,
        (Phase::Scanning, MonitorEvent::Scanned { meeting, now }) => match meeting {
            Some(seen) => if !run.was_in_meeting && run.settings.auto_start_recording {
                Phase::AskedBeforeStart { app_name: seen.app_name }
            } else {
                Phase::Sleeping
            },
            None => if monitor::ends(run, meeting, now) && monitor::stops_recording(
                detector,
                run,
            ) {
                Phase::Stopping
            } else {
                Phase::Sleeping
            },
        },
        (Phase::AskedBeforeStart { app_name }, MonitorEvent::Recording { active, .. }) => if active {
            Phase::Sleeping
        } else {
            Phase::FindingTitle { app_name }
        },
        (Phase::FindingTitle { .. }, MonitorEvent::Title { .. }) => Phase::Starting,
        (Phase::Starting, MonitorEvent::Started { .. }) => Phase::Sleeping,
        (Phase::Stopping, MonitorEvent::Stopped) => Phase::Sleeping,
        _ => phase,
    }
}

/// What the run is told by `event`.
pub open spec fn told_by(
    phase: Phase,
    run: MonitorLoop,
    detector: MeetingDetector,
    event: MonitorEvent,
) -> Seq<monitor_laws::Told> {
    match (phase, event) {
        (Phase::Sleeping, MonitorEvent::Woke) => {
            let settings = monitor_laws::Told::Settings { settings: detector.settings };
            match monitor::woken(detector, run.generation) {
                Wake::Exit => Seq::empty(),
                Wake::Sleep { .. } => seq![settings],
                Wake::Poll { ask_recording } => if ask_recording {
                    seq![settings]
                } else {
                    seq![settings, monitor_laws::Told::Recording { recording: None, now: 0 }]
                },
            }
        },
        (Phase::AskedRecording, MonitorEvent::Recording { active, now }) => seq![
            monitor_laws::Told::Recording { recording: Some(active), now },
        ],
        (Phase::Scanning, MonitorEvent::Scanned { meeting, now }) => seq![
            monitor_laws::Told::Meeting { meeting, now },
        ],
        (Phase::Starting, MonitorEvent::Started { now }) => seq![
            monitor_laws::Told::AutoStarted { now },
        ],
        (Phase::Stopping, MonitorEvent::Stopped) => seq![monitor_laws::Told::AutoStopped],
        _ => Seq::empty(),
    }
}

impl Monitor {
    /// The run is well-formed; a recording is about to be started only during a
    /// meeting and where the settings ask for it, and about to be stopped only
    /// after a meeting and where they ask for that.
    pub open spec fn wf(self) -> bool {
        &&& self.run.wf()
        &&& self.phase is AskedBeforeStart || self.phase is FindingTitle || self.phase is Starting
            ==> self.run.was_in_meeting && self.run.settings.auto_start_recording
        &&& self.phase is Stopping ==> !self.run.was_in_meeting
            && self.run.settings.auto_stop_recording
    }

    /// The run and the detector that it works for.
    pub open spec fn state(self, detector: MeetingDetector) -> monitor_laws::State {
        monitor_laws::State { run: self.run, detector }
    }

    /// Starts monitoring, unless it is active already. The run begins by
    /// waking.
    pub fn start(detector: &mut MeetingDetector) -> (res: Option<Monitor>)
        ensures
            *final(detector) == crate::detector::started(*old(detector)),
            match res {
                Some(m) => !old(detector).is_monitoring && m.phase is Sleeping && m.run
                    == monitor::new_run(
                    final(detector).monitor_generation,
                    old(detector).settings,
                ),
                None => old(detector).is_monitoring,
            },
            old(detector).wf() ==> final(detector).wf() && (res matches Some(m) ==> m.wf()),
    {
        match MonitorLoop::start_monitoring(detector) {
            Some(run) => Some(Monitor { run, phase: Phase::Sleeping }),
            None => None,
        }
    }

    /// Whether the monitor waits for `event`.
    pub fn is_awaiting(&self, event: &MonitorEvent) -> (res: bool)
        ensures
            res == awaits(self.phase, *event),
    {
        match (&self.phase, event) {
            (Phase::Sleeping, MonitorEvent::Woke) => true,
            (Phase::AskedRecording, MonitorEvent::Recording { .. }) => true,
            (Phase::Scanning, MonitorEvent::Scanned { .. }) => true,
            (Phase::AskedBeforeStart { .. }, MonitorEvent::Recording { .. }) => true,
            (Phase::FindingTitle { .. }, MonitorEvent::Title { .. }) => true,
            (Phase::Starting, MonitorEvent::Started { .. }) => true,
            (Phase::Stopping, MonitorEvent::Stopped) => true,
            _ => false,
        }
    }

    /// Takes in `event`, which the monitor waits for, and says what to do.
    pub fn step(&mut self, detector: &mut MeetingDetector, event: MonitorEvent) -> (res: Vec<
        MonitorAction,
    >)
        requires
            awaits(old(self).phase, event),
        ensures
            contents(res@) == actions_on(old(self).phase, old(self).run, *old(detector), event),
            final(self).state(*final(detector)) == monitor_laws::after(
                old(self).state(*old(detector)),
                told_by(old(self).phase, old(self).run, *old(detector), event),
            ),
            final(self).phase == phase_on(
                old(self).phase,
                old(self).run,
                *old(detector),
                event,
            ),
            old(self).wf() && old(detector).wf() ==> final(self).wf() && final(detector).wf(),
    {
        let ghost was = *self;
        let ghost before = *detector;
        let ghost happened = event;
        let mut actions: Vec<MonitorAction> = Vec::new();
        let mut phase = Phase::Over;
        std::mem::swap(&mut phase, &mut self.phase);
        match (phase, event) {
            (Phase::Sleeping, MonitorEvent::Woke) => {
                match self.run.wake(detector) {
                    Wake::Exit => {
                        actions.push(MonitorAction::Exit);
                        self.phase = Phase::Over;
                    },
                    Wake::Sleep { secs } => {
                        actions.push(MonitorAction::Sleep { secs });
                        self.phase = Phase::Sleeping;
                    },
                    Wake::Poll { ask_recording } => {
                        if ask_recording {
                            actions.push(MonitorAction::AskRecording);
                            self.phase = Phase::AskedRecording;
                        } else {
                            self.run.watch_recording(detector, None, 0);
                            actions.push(MonitorAction::Scan);
                            self.phase = Phase::Scanning;
                        }
                    },
                }
            },
            (Phase::AskedRecording, MonitorEvent::Recording { active, now }) => {
                if let Watch::GaveUp { notice } = self.run.watch_recording(
                    detector,
                    Some(active),
                    now,
                ) {
                    actions.push(MonitorAction::RefreshTray);
                    actions.push(MonitorAction::Notify { notice });
                }
                actions.push(MonitorAction::Scan);
                self.phase = Phase::Scanning;
            },
            (Phase::Scanning, MonitorEvent::Scanned { meeting, now }) => {
                match self.run.observe(detector, meeting, now) {
                    Observation::Started { meeting: seen, notice, auto_start } => {
                        let app_name = seen.app_name.clone();
                        actions.push(MonitorAction::EmitMeetingDetected { meeting: seen });
                        if let Some(notice) = notice {
                            actions.push(MonitorAction::Notify { notice });
                        }
                        if auto_start {
                            actions.push(MonitorAction::AskRecording);
                            self.phase = Phase::AskedBeforeStart { app_name };
                        } else {
                            actions.push(MonitorAction::Sleep { secs: self.run.pause_secs() });
                            self.phase = Phase::Sleeping;
                        }
                    },
                    Observation::Ended { auto_stop } => {
                        actions.push(MonitorAction::EmitMeetingEnded);
                        if auto_stop {
                            actions.push(MonitorAction::StopRecording);
                            self.phase = Phase::Stopping;
                        } else {
                            actions.push(MonitorAction::Sleep { secs: self.run.pause_secs() });
                            self.phase = Phase::Sleeping;
                        }
                    },
                    _ => {
                        actions.push(MonitorAction::Sleep { secs: self.run.pause_secs() });
                        self.phase = Phase::Sleeping;
                    },
                }
            },
            (Phase::AskedBeforeStart { app_name }, MonitorEvent::Recording { active, .. }) => {
                if active {
                    actions.push(MonitorAction::Sleep { secs: self.run.pause_secs() });
                    self.phase = Phase::Sleeping;
                } else {
                    actions.push(
                        MonitorAction::FindTitle { timeout_secs: monitor::TITLE_TIMEOUT_SECS },
                    );
                    self.phase = Phase::FindingTitle { app_name };
                }
            },
            (Phase::FindingTitle { app_name }, MonitorEvent::Title { title }) => {
                let plan = monitor::plan_auto_start(app_name.as_str(), title);
                actions.push(MonitorAction::StartRecording { plan });
                self.phase = Phase::Starting;
            },
            (Phase::Starting, MonitorEvent::Started { now }) => {
                self.run.auto_start(detector, now);
                actions.push(MonitorAction::Sleep { secs: self.run.pause_secs() });
                self.phase = Phase::Sleeping;
            },
            (Phase::Stopping, MonitorEvent::Stopped) => {
                detector.release_recording();
                actions.push(MonitorAction::Sleep { secs: self.run.pause_secs() });
                self.phase = Phase::Sleeping;
            },
            _ => {},
        }
        proof {
            reveal_with_fuel(monitor_laws::after, 3);
            let told = told_by(was.phase, was.run, before, happened);
            if told.len() > 0 {
                assert(told.drop_last() =~= told.take(told.len() - 1));
                if told.len() == 2 {
                    assert(told.drop_last() =~= seq![told[0]]);
                }
                assert(seq![told[0]].drop_last() =~= Seq::<monitor_laws::Told>::empty());
            }
            assert(contents(actions@) =~= actions_on(was.phase, was.run, before, happened));
        }
        actions
    }
}

/// The monitor once `event` has happened to it, with the detector as it then
/// was.
pub open spec fn stepped(
    monitor: Monitor,
    detector: MeetingDetector,
    event: MonitorEvent,
) -> Monitor {
    Monitor {
        run: monitor_laws::after(
            monitor.state(detector),
            told_by(monitor.phase, monitor.run, detector, event),
        ).run,
        phase: phase_on(monitor.phase, monitor.run, detector, event),
    }
}

/// An event, and the detector as it was at the time. Between events, the rest
/// of the application may change the settings of the detector, stop it and
/// start it again.
pub struct Happening {
    pub detector: MeetingDetector,
    pub event: MonitorEvent,
}

/// The monitor once all of `story` has happened to it, in order.
pub open spec fn monitor_after(monitor: Monitor, story: Seq<Happening>) -> Monitor
    decreases story.len(),
{
    if story.len() == 0 {
        monitor
    } else {
        stepped(
            monitor_after(monitor, story.drop_last()),
            story.last().detector,
            story.last().event,
        )
    }
}

/// The monitor to which the thing at `i` of `story` happens.
pub open spec fn monitor_at(monitor: Monitor, story: Seq<Happening>, i: int) -> Monitor {
    monitor_after(monitor, story.take(i))
}

/// Whatever happens in `story` is what the monitor then waits for.
pub open spec fn awaited(monitor: Monitor, story: Seq<Happening>) -> bool {
    forall|i: int|
        0 <= i < story.len() ==> awaits(
            monitor_at(monitor, story, i).phase,
            #[trigger] story[i].event,
        )
}

/// What is asked for when the thing at `i` of `story` happens.
pub open spec fn actions_at(monitor: Monitor, story: Seq<Happening>, i: int) -> Seq<ActionModel> {
    let then = monitor_at(monitor, story, i);
    actions_on(then.phase, then.run, story[i].detector, story[i].event)
}

/// `action` brings an event.
pub open spec fn brings_event(action: ActionModel) -> bool {
    action is Sleep || action is AskRecording || action is Scan || action is FindTitle
        || action is StartRecording || action is StopRecording
}

/// Each step asks for something, and for one thing at most that brings an
/// event: the last, which brings what the monitor then waits for. A monitor
/// that is over waits for nothing.
pub proof fn law_each_step_brings_the_next(
    monitor: Monitor,
    detector: MeetingDetector,
    event: MonitorEvent,
)
    requires
        awaits(monitor.phase, event),
    ensures
        ({
            let asked = actions_on(monitor.phase, monitor.run, detector, event);
            &&& asked.len() > 0
            &&& brings_awaited(asked.last(), stepped(monitor, detector, event).phase)
            &&& forall|i: int| 0 <= i < asked.len() - 1 ==> !brings_event(#[trigger] asked[i])
            &&& stepped(monitor, detector, event).phase is Over <==> asked == seq![
                ActionModel::Exit,
            ]
        }),
{
}

proof fn lemma_starts_when_title_is_known(
    phase: Phase,
    run: MonitorLoop,
    detector: MeetingDetector,
    event: MonitorEvent,
    started: ActionModel,
)
    requires
        actions_on(phase, run, detector, event).contains(started),
        started is StartRecording,
    ensures
        phase matches Phase::FindingTitle { app_name } && started->StartRecording_app_name
            == app_name@,
{
    let asked = actions_on(phase, run, detector, event);
    let i: int = asked.index_of(started);
    assert(asked[i] == started);
}

proof fn lemma_before_finding_title(
    monitor: Monitor,
    detector: MeetingDetector,
    event: MonitorEvent,
)
    requires
        awaits(monitor.phase, event),
        stepped(monitor, detector, event).phase is FindingTitle,
    ensures
        event matches MonitorEvent::Recording { active, .. } && !active,
        monitor.phase == (Phase::AskedBeforeStart {
            app_name: stepped(monitor, detector, event).phase->FindingTitle_app_name,
        }),
{
}

proof fn lemma_before_asking(monitor: Monitor, detector: MeetingDetector, event: MonitorEvent)
    requires
        awaits(monitor.phase, event),
        stepped(monitor, detector, event).phase is AskedBeforeStart,
    ensures
        event matches MonitorEvent::Scanned { meeting, .. } && monitor::starts(
            monitor.run,
            meeting,
        ) && monitor.run.settings.auto_start_recording && stepped(
            monitor,
            detector,
            event,
        ).phase->AskedBeforeStart_app_name == meeting->0.app_name,
{
}

/// A recording is started only for a meeting that has just started, where the
/// settings of that poll ask for it, and once it is known that nothing is
/// recorded; whatever else the application does meanwhile.
pub proof fn law_recording_starts_only_when_wanted(
    monitor: Monitor,
    story: Seq<Happening>,
    started: ActionModel,
)
    requires
        monitor.phase is Sleeping,
        awaited(monitor, story),
        story.len() > 0,
        actions_at(monitor, story, story.len() - 1).contains(started),
        started is StartRecording,
    ensures
        story.len() >= 3,
        story[story.len() - 2].event matches MonitorEvent::Recording { active, .. } && !active,
        ({
            let poll = monitor_at(monitor, story, story.len() - 3).run;
            &&& story[story.len() - 3].event matches MonitorEvent::Scanned { meeting, .. }
            &&& monitor::starts(poll, meeting)
            &&& poll.settings.auto_start_recording
            &&& started->StartRecording_app_name == meeting->0.app_name@
        }),
{
    let n: int = story.len() as int;
    let last = monitor_at(monitor, story, n - 1);
    lemma_starts_when_title_is_known(
        last.phase,
        last.run,
        story[n - 1].detector,
        story[n - 1].event,
        started,
    );
    assert(story.take(0) =~= Seq::<Happening>::empty());
    assert(story.take(n - 1).drop_last() =~= story.take(n - 2));
    let asked = monitor_at(monitor, story, n - 2);
    assert(awaits(asked.phase, story[n - 2].event));
    lemma_before_finding_title(asked, story[n - 2].detector, story[n - 2].event);
    assert(story.take(n - 2).drop_last() =~= story.take(n - 3));
    let scanning = monitor_at(monitor, story, n - 3);
    assert(awaits(scanning.phase, story[n - 3].event));
    lemma_before_asking(scanning, story[n - 3].detector, story[n - 3].event);
}

/// The monitor asks about a recording, to look after it, exactly while it has
/// one of its own: from step to step, what the run is told agrees with what it
/// then owns, and it waits for an answer only while it owns a recording.
pub proof fn law_monitor_asks_about_own_recording(
    monitor: Monitor,
    detector: MeetingDetector,
    event: MonitorEvent,
)
    requires
        awaits(monitor.phase, event),
        monitor.phase is AskedRecording ==> detector.auto_recording_active,
    ensures
        ({
            let told = told_by(monitor.phase, monitor.run, detector, event);
            let then = monitor_laws::after(monitor.state(detector), told);
            &&& monitor_laws::asks_about_own(monitor.state(detector), told)
            &&& stepped(monitor, detector, event).phase is AskedRecording
                ==> then.detector.auto_recording_active
        }),
{
    reveal_with_fuel(monitor_laws::after, 3);
    let state = monitor.state(detector);
    let told = told_by(monitor.phase, monitor.run, detector, event);
    assert(told.take(0) =~= Seq::<monitor_laws::Told>::empty());
    if told.len() > 0 {
        assert(told.take(1) =~= seq![told[0]]);
        assert(seq![told[0]].drop_last() =~= Seq::<monitor_laws::Told>::empty());
        assert(monitor_laws::at(state, told, 1) == monitor_laws::next(state, told[0]));
        if told.len() == 1 {
            assert(told =~= told.take(1));
        }
    }
}

/// A poll goes by the settings of the moment in which it began.
pub proof fn law_poll_keeps_its_settings(
    monitor: Monitor,
    detector: MeetingDetector,
    event: MonitorEvent,
)
    requires
        !(event is Woke),
    ensures
        stepped(monitor, detector, event).run.settings == monitor.run.settings,
{
    reveal_with_fuel(monitor_laws::after, 2);
    let told = told_by(monitor.phase, monitor.run, detector, event);
    if told.len() > 0 {
        assert(told.drop_last() =~= Seq::<monitor_laws::Told>::empty());
    }
}

/// A monitor whose detector was stopped ends when it next wakes, and does
/// nothing else, even where the detector was started again meanwhile.
pub proof fn law_stopped_monitor_exits(
    monitor: Monitor,
    detector: MeetingDetector,
    started_again: bool,
)
    requires
        monitor.phase is Sleeping,
        crate::detector::runs(detector, monitor.run.generation),
    ensures
        ({
            let stopped = crate::detector::stopped(detector);
            let found = if started_again {
                crate::detector::started(stopped)
            } else {
                stopped
            };
            &&& actions_on(monitor.phase, monitor.run, found, MonitorEvent::Woke) == seq![
                ActionModel::Exit,
            ]
            &&& stepped(monitor, found, MonitorEvent::Woke) == (Monitor {
                run: monitor.run,
                phase: Phase::Over,
            })
        }),
{
}

/// The run and the detector once `event` has happened.
pub open spec fn state_after(
    monitor: Monitor,
    detector: MeetingDetector,
    event: MonitorEvent,
) -> monitor_laws::State {
    monitor_laws::after(
        monitor.state(detector),
        told_by(monitor.phase, monitor.run, detector, event),
    )
}

proof fn lemma_after_few(
    state: monitor_laws::State,
    first: monitor_laws::Told,
    second: monitor_laws::Told,
)
    ensures
        monitor_laws::after(state, Seq::empty()) == state,
        monitor_laws::after(state, seq![first]) == monitor_laws::next(state, first),
        monitor_laws::after(state, seq![first, second]) == monitor_laws::next(
            monitor_laws::next(state, first),
            second,
        ),
{
    reveal_with_fuel(monitor_laws::after, 3);
    assert(seq![first].drop_last() =~= Seq::<monitor_laws::Told>::empty());
    assert(seq![first, second].drop_last() =~= seq![first]);
}

/// A monitor that wakes ends where its run is over, pauses where detection is
/// off, and else polls: it asks about the recording that it owns, or looks for
/// a meeting at once and forgets what it remembers of a recording. From then on
/// it goes by the settings of that moment, and the detector stays as it is.
pub proof fn law_woken_monitor_goes_by_the_detector(monitor: Monitor, detector: MeetingDetector)
    requires
        monitor.phase is Sleeping,
    ensures
        ({
            let asked = actions_on(monitor.phase, monitor.run, detector, MonitorEvent::Woke);
            let then = stepped(monitor, detector, MonitorEvent::Woke);
            let settled = MonitorLoop { settings: detector.settings, ..monitor.run };
            &&& state_after(monitor, detector, MonitorEvent::Woke).detector == detector
            &&& if !detector.is_monitoring || detector.monitor_generation != monitor.run.generation {
                asked == seq![ActionModel::Exit] && then.phase is Over && then.run == monitor.run
            } else if !detector.settings.enabled {
                asked == seq![ActionModel::Sleep { secs: detector.settings.poll_interval_secs }]
                    && then.phase is Sleeping && then.run == settled
            } else if detector.auto_recording_active {
                asked == seq![ActionModel::AskRecording] && then.phase is AskedRecording && then.run
                    == settled
            } else {
                asked == seq![ActionModel::Scan] && then.phase is Scanning && then.run
                    == MonitorLoop {
                    auto_recording_observed: false,
                    auto_start_deadline: None,
                    ..settled
                }
            }
        }),
{
    lemma_after_few(
        monitor.state(detector),
        monitor_laws::Told::Settings { settings: detector.settings },
        monitor_laws::Told::Recording { recording: None, now: 0 },
    );
}

/// The answer about the recording is what the run is told, and a poll follows
/// it. The user is notified, and the tray put right, exactly where a recording
/// that was never seen running has not begun in its time. What the answer means
/// for who owns the recording is as follows: one that runs, or may yet begin,
/// stays the monitor's own, and one that has stopped or failed to begin does
/// not.
pub proof fn law_answer_settles_ownership(
    monitor: Monitor,
    detector: MeetingDetector,
    active: bool,
    now: u64,
)
    requires
        monitor.phase is AskedRecording,
    ensures
        ({
            let event = MonitorEvent::Recording { active, now };
            let asked = actions_on(monitor.phase, monitor.run, detector, event);
            let then = stepped(monitor, detector, event);
            let owner = state_after(monitor, detector, event).detector;
            let failed = !active && !monitor.run.auto_recording_observed && (
            monitor.run.auto_start_deadline matches Some(deadline) && deadline <= now);
            let stopped = !active && monitor.run.auto_recording_observed;
            &&& state_after(monitor, detector, event) == monitor_laws::next(
                monitor.state(detector),
                monitor_laws::Told::Recording { recording: Some(active), now },
            )
            &&& then.phase is Scanning
            &&& asked == if failed {
                seq![
                    ActionModel::RefreshTray,
                    ActionModel::Notify {
                        title: "Meetily couldn't start recording"@,
                        body: "A meeting was detected but recording didn't start. Open Meetily to record it."@,
                    },
                    ActionModel::Scan,
                ]
            } else {
                seq![ActionModel::Scan]
            }
            &&& owner == MeetingDetector {
                auto_recording_active: detector.auto_recording_active && !failed && !stopped,
                ..detector
            }
            &&& then.run == MonitorLoop {
                auto_recording_observed: active,
                auto_start_deadline: if active || failed {
                    None
                } else {
                    monitor.run.auto_start_deadline
                },
                ..monitor.run
            }
        }),
{
    let told = monitor_laws::Told::Recording { recording: Some(active), now };
    lemma_after_few(monitor.state(detector), told, told);
}

/// What a poll sees is what the run is told. A meeting that starts is reported
/// to the frontend, announced where the settings ask for it, and leads to the
/// question whether something is recorded where a recording is to be started.
/// Where a meeting is on already, the monitor only pauses.
pub proof fn law_seen_meeting_is_reported_once(
    monitor: Monitor,
    detector: MeetingDetector,
    seen: DetectedMeeting,
    now: u64,
)
    requires
        monitor.phase is Scanning,
    ensures
        ({
            let event = MonitorEvent::Scanned { meeting: Some(seen), now };
            let asked = actions_on(monitor.phase, monitor.run, detector, event);
            let then = stepped(monitor, detector, event);
            let settings = monitor.run.settings;
            let starts = !monitor.run.was_in_meeting;
            let report = ActionModel::EmitMeetingDetected { meeting: seen };
            let announcement = ActionModel::Notify {
                title: seen.app_name@ + " Meeting Detected"@,
                body: if settings.auto_start_recording {
                    "Meetily is starting a recording"@
                } else {
                    "Open Meetily to record this meeting"@
                },
            };
            let pause = ActionModel::Sleep { secs: settings.poll_interval_secs };
            let last = if starts && settings.auto_start_recording {
                ActionModel::AskRecording
            } else {
                pause
            };
            &&& state_after(monitor, detector, event) == monitor_laws::next(
                monitor.state(detector),
                monitor_laws::Told::Meeting { meeting: Some(seen), now },
            )
            &&& asked == if !starts {
                seq![last]
            } else if settings.notify_on_detection {
                seq![report, announcement, last]
            } else {
                seq![report, last]
            }
            &&& then.phase == if starts && settings.auto_start_recording {
                Phase::AskedBeforeStart { app_name: seen.app_name }
            } else {
                Phase::Sleeping
            }
        }),
{
    let told = monitor_laws::Told::Meeting { meeting: Some(seen), now };
    lemma_after_few(monitor.state(detector), told, told);
    let event = MonitorEvent::Scanned { meeting: Some(seen), now };
    let asked = actions_on(monitor.phase, monitor.run, detector, event);
    let settings = monitor.run.settings;
    if !monitor.run.was_in_meeting {
        if settings.notify_on_detection {
            assert(asked =~= seq![asked[0], asked[1], asked[2]]);
        } else {
            assert(asked =~= seq![asked[0], asked[1]]);
        }
    }
}

/// A meeting that is gone is reported as ended once the grace period is over,
/// and the recording is then stopped exactly where that is wanted and it is the
/// monitor's own. Before that, and where no meeting was on, the monitor only
/// pauses.
pub proof fn law_gone_meeting_is_reported_after_grace(
    monitor: Monitor,
    detector: MeetingDetector,
    now: u64,
)
    requires
        monitor.phase is Scanning,
    ensures
        ({
            let event = MonitorEvent::Scanned { meeting: None, now };
            let asked = actions_on(monitor.phase, monitor.run, detector, event);
            let then = stepped(monitor, detector, event);
            let settings = monitor.run.settings;
            let since = match monitor.run.pending_stop_since {
                Some(first) => first,
                None => now,
            };
            let over = settings.auto_stop_grace_secs == 0 || now - since
                >= settings.auto_stop_grace_secs * 1_000_000_000;
            let ends = monitor.run.was_in_meeting && over;
            let stops = ends && settings.auto_stop_recording && detector.auto_recording_active;
            let pause = ActionModel::Sleep { secs: settings.poll_interval_secs };
            &&& state_after(monitor, detector, event) == monitor_laws::next(
                monitor.state(detector),
                monitor_laws::Told::Meeting { meeting: None, now },
            )
            &&& asked == if stops {
                seq![ActionModel::EmitMeetingEnded, ActionModel::StopRecording]
            } else if ends {
                seq![ActionModel::EmitMeetingEnded, pause]
            } else {
                seq![pause]
            }
            &&& then.phase == if stops {
                Phase::Stopping
            } else {
                Phase::Sleeping
            }
        }),
{
    let told = monitor_laws::Told::Meeting { meeting: None, now };
    lemma_after_few(monitor.state(detector), told, told);
}

/// Before a start, the monitor leaves what is recorded already alone: it then
/// only pauses. Where nothing is recorded, it looks for a title, for three
/// seconds at most. Neither changes the run or the detector.
pub proof fn law_nothing_is_started_over_a_recording(
    monitor: Monitor,
    detector: MeetingDetector,
    active: bool,
    now: u64,
)
    requires
        monitor.phase is AskedBeforeStart,
    ensures
        ({
            let event = MonitorEvent::Recording { active, now };
            let asked = actions_on(monitor.phase, monitor.run, detector, event);
            let then = stepped(monitor, detector, event);
            &&& state_after(monitor, detector, event) == monitor.state(detector)
            &&& asked == if active {
                seq![ActionModel::Sleep { secs: monitor.run.settings.poll_interval_secs }]
            } else {
                seq![ActionModel::FindTitle { timeout_secs: 3 }]
            }
            &&& then.phase == if active {
                Phase::Sleeping
            } else {
                Phase::FindingTitle { app_name: monitor.phase->AskedBeforeStart_app_name }
            }
        }),
{
}

/// A recording is started under the title that was found, or under the name of
/// the application of the meeting, with the scripts that set the flag, hand over
/// that very name and lead to the main page. It is not the monitor's own before
/// the start was performed.
pub proof fn law_recording_is_started_under_its_title(
    monitor: Monitor,
    detector: MeetingDetector,
    title: Option<String>,
)
    requires
        monitor.phase is FindingTitle,
    ensures
        ({
            let event = MonitorEvent::Title { title };
            let asked = actions_on(monitor.phase, monitor.run, detector, event);
            let app_name = monitor.phase->FindingTitle_app_name@;
            let name = match title {
                Some(found) => found@,
                None => app_name + " Meeting"@,
            };
            &&& state_after(monitor, detector, event) == monitor.state(detector)
            &&& stepped(monitor, detector, event).phase is Starting
            &&& asked == seq![
                ActionModel::StartRecording {
                    meeting_name: name,
                    app_name,
                    scripts: seq![
                        "sessionStorage.setItem('autoStartRecording', 'true')"@,
                        "sessionStorage.setItem('autoStartMeetingTitle', "@
                            + recording::json_string(name) + ")"@,
                        "window.location.assign('/')"@,
                    ],
                },
            ]
        }),
{
}

/// Once the start was performed, the recording is the monitor's own and has a
/// minute to begin; once a stop was performed, it is its own no more. Either is
/// followed by a pause.
pub proof fn law_ownership_follows_what_was_performed(
    monitor: Monitor,
    detector: MeetingDetector,
    now: u64,
)
    ensures
        ({
            let pause = ActionModel::Sleep { secs: monitor.run.settings.poll_interval_secs };
            let started = MonitorEvent::Started { now };
            let stopped = MonitorEvent::Stopped;
            &&& monitor.phase is Starting ==> {
                &&& actions_on(monitor.phase, monitor.run, detector, started) == seq![pause]
                &&& stepped(monitor, detector, started).phase is Sleeping
                &&& stepped(monitor, detector, started).run == MonitorLoop {
                    auto_recording_observed: false,
                    auto_start_deadline: Some((now + 60_000_000_000) as u128),
                    ..monitor.run
                }
                &&& state_after(monitor, detector, started).detector == MeetingDetector {
                    auto_recording_active: true,
                    ..detector
                }
            }
            &&& monitor.phase is Stopping ==> {
                &&& actions_on(monitor.phase, monitor.run, detector, stopped) == seq![pause]
                &&& stepped(monitor, detector, stopped).phase is Sleeping
                &&& stepped(monitor, detector, stopped).run == monitor.run
                &&& state_after(monitor, detector, stopped).detector == MeetingDetector {
                    auto_recording_active: false,
                    ..detector
                }
            }
        }),
{
    lemma_after_few(
        monitor.state(detector),
        monitor_laws::Told::AutoStarted { now },
        monitor_laws::Told::AutoStopped,
    );
    lemma_after_few(
        monitor.state(detector),
        monitor_laws::Told::AutoStopped,
        monitor_laws::Told::AutoStopped,
    );
}

/// The content of an action tells actions of different kinds apart, and is that
/// of what the action holds.
pub proof fn law_action_content_is_that_of_the_action(action: MonitorAction)
    ensures
        match action {
            MonitorAction::Exit => action@ is Exit,
            MonitorAction::Sleep { secs } => action@ == (ActionModel::Sleep { secs }),
            MonitorAction::AskRecording => action@ is AskRecording,
            MonitorAction::Scan => action@ is Scan,
            MonitorAction::RefreshTray => action@ is RefreshTray,
            MonitorAction::Notify { notice } => action@ is Notify && action@->title
                == notice.title@ && action@->body == notice.body@,
            MonitorAction::EmitMeetingDetected { meeting } => action@ is EmitMeetingDetected
                && action@->meeting == meeting,
            MonitorAction::FindTitle { timeout_secs } => action@ == (ActionModel::FindTitle {
                timeout_secs,
            }),
            MonitorAction::StartRecording { plan } => {
                &&& action@ is StartRecording
                &&& action@->meeting_name == plan.meeting_name@
                &&& action@->app_name == plan.app_name@
                &&& action@->scripts.len() == plan.scripts@.len()
                &&& forall|i: int|
                    0 <= i < plan.scripts@.len() ==> action@->scripts[i] == (
                    #[trigger] plan.scripts@[i])@
            },
            MonitorAction::EmitMeetingEnded => action@ is EmitMeetingEnded,
            MonitorAction::StopRecording => action@ is StopRecording,
        },
{
}

/// What is asked for is so action by action.
pub proof fn law_contents_keep_order(actions: Seq<MonitorAction>)
    ensures
        contents(actions).len() == actions.len(),
        forall|i: int| 0 <= i < actions.len() ==> contents(actions)[i] == (#[trigger] actions[i])@,
{
}

/// In each phase but the last the monitor waits for one kind of event, and in
/// the last for none.
pub proof fn law_each_phase_awaits_one_kind_of_event(phase: Phase, event: MonitorEvent)
    ensures
        phase is Sleeping ==> (awaits(phase, event) <==> event is Woke),
        phase is AskedRecording ==> (awaits(phase, event) <==> event is Recording),
        phase is Scanning ==> (awaits(phase, event) <==> event is Scanned),
        phase is AskedBeforeStart ==> (awaits(phase, event) <==> event is Recording),
        phase is FindingTitle ==> (awaits(phase, event) <==> event is Title),
        phase is Starting ==> (awaits(phase, event) <==> event is Started),
        phase is Stopping ==> (awaits(phase, event) <==> event is Stopped),
        phase is Over ==> !awaits(phase, event),
{
}

} // verus!
