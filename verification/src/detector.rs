//! Which running programs mean that a meeting is on, and the state that the
//! detector shares with whoever asks for it.

use vstd::prelude::*;
use vstd::string::*;

use crate::clock;
use crate::settings::MeetingDetectionSettings;
use crate::text;

verus! {

/// A meeting that was detected.
#[derive(Debug)]
pub struct DetectedMeeting {
    /// Name of the meeting application, such as "Zoom".
    pub app_name: String,
    /// Name of the process that was detected.
    pub process_name: String,
    /// When the meeting was detected.
    pub detected_at: String,
    /// Whether this is an active meeting, rather than just the application
    /// running.
    pub is_active_meeting: bool,
}

impl Clone for DetectedMeeting {
    fn clone(&self) -> (res: Self)
        ensures
            res == *self,
    {
        DetectedMeeting {
            app_name: self.app_name.clone(),
            process_name: self.process_name.clone(),
            detected_at: self.detected_at.clone(),
            is_active_meeting: self.is_active_meeting,
        }
    }
}

/// A meeting application that its processes give away.
#[derive(Debug, Clone, Copy, PartialEq, Eq, Structural)]
pub enum MeetingApp {
    Zoom,
    MicrosoftTeams,
}

/// The name under which an application is reported.
pub open spec fn app_title(app: MeetingApp) -> Seq<char> {
    match app {
        MeetingApp::Zoom => "Zoom"@,
        MeetingApp::MicrosoftTeams => "Microsoft Teams"@,
    }
}

/// The text that marks the process which runs during an active Zoom meeting.
/// Zoom itself runs whenever the application is open.
pub const ZOOM_MEETING_PROCESS: &'static str = "cpthost";

/// The application that a process name in lower case gives away, given the
/// process names of Teams in lower case.
pub open spec fn app_of(
    lowered: Seq<char>,
    teams_lowered: Seq<Seq<char>>,
    settings: MeetingDetectionSettings,
) -> Option<MeetingApp> {
    if settings.detect_zoom && text::occurs_in(ZOOM_MEETING_PROCESS@, lowered) {
        Some(MeetingApp::Zoom)
    } else if settings.detect_teams && exists|i: int|
        0 <= i < teams_lowered.len() && text::occurs_in(#[trigger] teams_lowered[i], lowered) {
        Some(MeetingApp::MicrosoftTeams)
    } else {
        None
    }
}

/// Texts in lower case.
pub open spec fn lowercase_all(names: Seq<String>) -> Seq<Seq<char>> {
    names.map_values(|name: String| text::lowercase(name@))
}

/// The application that a process name gives away, in whatever case it and the
/// process names of Teams are written.
pub open spec fn process_app(
    name: String,
    teams: Seq<String>,
    settings: MeetingDetectionSettings,
) -> Option<MeetingApp> {
    app_of(text::lowercase(name@), lowercase_all(teams), settings)
}

/// The process at `i` is the first that gives an application away, and gives
/// away `app`.
pub open spec fn first_meeting_at(
    processes: Seq<String>,
    teams: Seq<String>,
    settings: MeetingDetectionSettings,
    i: int,
    app: MeetingApp,
) -> bool {
    &&& 0 <= i < processes.len()
    &&& process_app(processes[i], teams, settings) == Some(app)
    &&& forall|j: int|
        0 <= j < i ==> process_app(#[trigger] processes[j], teams, settings) is None
}

/// No process gives an application away.
pub open spec fn no_meeting(
    processes: Seq<String>,
    teams: Seq<String>,
    settings: MeetingDetectionSettings,
) -> bool {
    forall|j: int|
        0 <= j < processes.len() ==> process_app(#[trigger] processes[j], teams, settings) is None
}

/// What is reported of the processes: the first that gives an application
/// away, under the name of that application, as an active meeting, with a time
/// in RFC 3339.
pub open spec fn reported(
    meeting: Option<DetectedMeeting>,
    processes: Seq<String>,
    teams: Seq<String>,
    settings: MeetingDetectionSettings,
) -> bool {
    match meeting {
        None => no_meeting(processes, teams, settings),
        Some(m) => exists|i: int, app: MeetingApp|
            {
                &&& #[trigger] first_meeting_at(processes, teams, settings, i, app)
                &&& m.app_name@ == app_title(app)
                &&& m.process_name@ == processes[i]@
                &&& clock::rfc3339_form(m.detected_at@)
                &&& m.is_active_meeting
            },
    }
}

/// The application that a process name in lower case gives away, given the
/// process names of Teams in lower case. A Zoom process counts only while a
/// meeting is active; a Teams process usually means one.
pub fn meeting_app(
    lowered: &str,
    teams_lowered: &[String],
    settings: &MeetingDetectionSettings,
) -> (res: Option<MeetingApp>)
    ensures
        res == app_of(lowered@, teams_lowered@.map_values(|name: String| name@), *settings),
{
    let ghost names = teams_lowered@.map_values(|name: String| name@);
    if settings.detect_zoom {
        if text::contains_text(lowered, ZOOM_MEETING_PROCESS) {
            return Some(MeetingApp::Zoom);
        }
    }
    if settings.detect_teams {
        let mut i: usize = 0;
        while i < teams_lowered.len()
            invariant
                i <= teams_lowered.len(),
                names == teams_lowered@.map_values(|name: String| name@),
                settings.detect_teams,
                !(settings.detect_zoom && text::occurs_in(ZOOM_MEETING_PROCESS@, lowered@)),
                forall|j: int| 0 <= j < i ==> !text::occurs_in(#[trigger] names[j], lowered@),
            decreases teams_lowered.len() - i,
        {
            if text::contains_text(lowered, teams_lowered[i].as_str()) {
                assert(text::occurs_in(names[i as int], lowered@));
                return Some(MeetingApp::MicrosoftTeams);
            }
            i = i + 1;
        }
    }
    None
}

/// The texts in lower case.
fn to_lowercase_all(names: &[String]) -> (res: Vec<String>)
    ensures
        res@.map_values(|name: String| name@) == lowercase_all(names@),
{
    let mut out: Vec<String> = Vec::new();
    let mut i: usize = 0;
    while i < names.len()
        invariant
            i <= names.len(),
            out@.len() == i,
            forall|j: int| 0 <= j < i ==> (#[trigger] out@[j])@ == text::lowercase(names@[j]@),
        decreases names.len() - i,
    {
        out.push(names[i].as_str().to_lowercase());
        i = i + 1;
    }
    proof {
        assert(out@.map_values(|name: String| name@) =~= lowercase_all(names@));
    }
    out
}

/// The first process that gives a meeting application away, by its place among
/// the processes, and the application.
pub fn first_meeting(
    processes: &[String],
    teams: &[String],
    settings: &MeetingDetectionSettings,
) -> (res: Option<(usize, MeetingApp)>)
    ensures
        match res {
            Some((i, app)) => first_meeting_at(processes@, teams@, *settings, i as int, app),
            None => no_meeting(processes@, teams@, *settings),
        },
{
    let teams_lowered = to_lowercase_all(teams);
    let mut i: usize = 0;
    while i < processes.len()
        invariant
            i <= processes.len(),
            teams_lowered@.map_values(|name: String| name@) == lowercase_all(teams@),
            forall|j: int|
                0 <= j < i ==> process_app(#[trigger] processes@[j], teams@, *settings) is None,
        decreases processes.len() - i,
    {
        let lowered = processes[i].as_str().to_lowercase();
        if let Some(app) = meeting_app(lowered.as_str(), teams_lowered.as_slice(), settings) {
            return Some((i, app));
        }
        i = i + 1;
    }
    None
}

/// The report of a meeting of `app`, given away by the process `process_name`
/// at the time `detected_at`.
pub fn detected_meeting(
    app: MeetingApp,
    process_name: &str,
    detected_at: String,
) -> (res: DetectedMeeting)
    ensures
        res.app_name@ == app_title(app),
        res.process_name@ == process_name@,
        res.detected_at == detected_at,
        res.is_active_meeting,
{
    let app_name = match app {
        MeetingApp::Zoom => "Zoom",
        MeetingApp::MicrosoftTeams => "Microsoft Teams",
    };
    DetectedMeeting {
        app_name: app_name.to_owned(),
        process_name: process_name.to_owned(),
        detected_at,
        is_active_meeting: true,
    }
}

/// Looks for a meeting among the names of the running processes. The time in
/// the report is that of the call.
pub fn detect_meeting_from_system(
    processes: &[String],
    teams: &[String],
    settings: &MeetingDetectionSettings,
) -> (res: Option<DetectedMeeting>)
    ensures
        reported(res, processes@, teams@, *settings),
{
    match first_meeting(processes, teams, settings) {
        Some((i, app)) => Some(detected_meeting(app, processes[i].as_str(), clock::local_timestamp())),
        None => None,
    }
}

/// Google Meet runs in a browser, and the name of a browser process does not
/// tell a meeting from any other page, so none is ever reported.
pub fn detect_google_meet_in_browser(process_name: &str) -> (res: Option<DetectedMeeting>)
    ensures
        res is None,
{
    None
}

/// Whether a process of exactly this name runs, whatever the case of the
/// letters `A` to `Z`.
pub fn system_has_process(processes: &[String], name: &str) -> (res: bool)
    ensures
        res == exists|i: int|
            0 <= i < processes@.len() && text::ascii_lower((#[trigger] processes@[i])@)
                == text::ascii_lower(name@),
{
    let mut i: usize = 0;
    while i < processes.len()
        invariant
            i <= processes.len(),
            forall|j: int|
                0 <= j < i ==> text::ascii_lower((#[trigger] processes@[j])@) != text::ascii_lower(
                    name@,
                ),
        decreases processes.len() - i,
    {
        if text::same_ignoring_ascii_case(processes[i].as_str(), name) {
            return true;
        }
        i = i + 1;
    }
    false
}

/// Status of the meeting detection monitor.
#[derive(Debug)]
pub struct MeetingDetectionStatus {
    /// Whether the monitor is currently running.
    pub is_monitoring: bool,
    /// Currently detected meeting, if any.
    pub current_meeting: Option<DetectedMeeting>,
    /// Current settings.
    pub settings: MeetingDetectionSettings,
    /// Whether recording was auto-started by the detector.
    pub auto_recording_active: bool,
}

impl Clone for MeetingDetectionStatus {
    fn clone(&self) -> (res: Self)
        ensures
            res == *self,
    {
        MeetingDetectionStatus {
            is_monitoring: self.is_monitoring,
            current_meeting: self.current_meeting.clone(),
            settings: self.settings.clone(),
            auto_recording_active: self.auto_recording_active,
        }
    }
}

/// The state of the meeting detection that outlives a run of the monitor and
/// that others read and change meanwhile.
#[derive(Debug)]
pub struct MeetingDetector {
    pub settings: MeetingDetectionSettings,
    pub is_monitoring: bool,
    /// Bumped on every start and stop. A run of the monitor ends as soon as the
    /// generation is no longer the one that it was started with, so a quick
    /// stop and start can never leave two of them running.
    pub monitor_generation: u64,
    pub current_meeting: Option<DetectedMeeting>,
    pub auto_recording_active: bool,
}

/// The detector before anything was detected.
pub open spec fn new_detector(settings: MeetingDetectionSettings) -> MeetingDetector {
    MeetingDetector {
        settings,
        is_monitoring: false,
        monitor_generation: 0,
        current_meeting: None,
        auto_recording_active: false,
    }
}

/// The generation after `generation`: zero after the largest.
pub open spec fn next_generation(generation: u64) -> u64 {
    if generation == u64::MAX {
        0
    } else {
        (generation + 1) as u64
    }
}

/// The detector once monitoring was asked to start.
pub open spec fn started(detector: MeetingDetector) -> MeetingDetector {
    if detector.is_monitoring {
        detector
    } else {
        MeetingDetector {
            is_monitoring: true,
            monitor_generation: next_generation(detector.monitor_generation),
            ..detector
        }
    }
}

/// The detector once monitoring was asked to stop.
pub open spec fn stopped(detector: MeetingDetector) -> MeetingDetector {
    MeetingDetector {
        is_monitoring: false,
        monitor_generation: next_generation(detector.monitor_generation),
        ..detector
    }
}

/// A run of the monitor that was started with `generation` goes on.
pub open spec fn runs(detector: MeetingDetector, generation: u64) -> bool {
    detector.is_monitoring && detector.monitor_generation == generation
}

impl MeetingDetector {
    /// The settings make the monitor pause between polls.
    pub open spec fn wf(self) -> bool {
        self.settings.wf()
    }

    /// Creates a detector with the settings that were found stored, if any.
    pub fn new(stored: Option<MeetingDetectionSettings>) -> (res: Self)
        ensures
            res == new_detector(crate::settings::loaded_settings(stored)),
            res.wf(),
    {
        MeetingDetector {
            settings: MeetingDetectionSettings::load(stored),
            is_monitoring: false,
            monitor_generation: 0,
            current_meeting: None,
            auto_recording_active: false,
        }
    }

    /// Gets the current settings.
    pub fn get_settings(&self) -> (res: MeetingDetectionSettings)
        ensures
            res == self.settings,
    {
        self.settings.clone()
    }

    /// Replaces the settings, clamped.
    pub fn set_settings(&mut self, settings: MeetingDetectionSettings)
        ensures
            *final(self) == (MeetingDetector {
                settings: crate::settings::sanitized_settings(settings),
                ..*old(self)
            }),
            final(self).wf(),
    {
        self.settings = settings.sanitized();
    }

    /// Whether monitoring is active.
    pub fn is_monitoring(&self) -> (res: bool)
        ensures
            res == self.is_monitoring,
    {
        self.is_monitoring
    }

    /// Gets the current detection status.
    pub fn get_status(&self) -> (res: MeetingDetectionStatus)
        ensures
            res == (MeetingDetectionStatus {
                is_monitoring: self.is_monitoring,
                current_meeting: self.current_meeting,
                settings: self.settings,
                auto_recording_active: self.auto_recording_active,
            }),
    {
        MeetingDetectionStatus {
            is_monitoring: self.is_monitoring,
            current_meeting: self.current_meeting.clone(),
            settings: self.get_settings(),
            auto_recording_active: self.auto_recording_active,
        }
    }

    /// Detects whether a meeting application runs, given the names of the
    /// running processes and the process names of Teams.
    pub fn detect_meeting(
        &self,
        processes: &[String],
        teams: &[String],
        settings: &MeetingDetectionSettings,
    ) -> (res: Option<DetectedMeeting>)
        ensures
            reported(res, processes@, teams@, *settings),
    {
        let teams_lowered = to_lowercase_all(teams);
        let mut i: usize = 0;
        while i < processes.len()
            invariant
                i <= processes.len(),
                teams_lowered@.map_values(|name: String| name@) == lowercase_all(teams@),
                forall|j: int|
                    0 <= j < i ==> process_app(#[trigger] processes@[j], teams@, *settings) is None,
            decreases processes.len() - i,
        {
            let name = processes[i].as_str().to_lowercase();
            if let Some(app) = meeting_app(name.as_str(), teams_lowered.as_slice(), settings) {
                assert(first_meeting_at(processes@, teams@, *settings, i as int, app));
                return Some(detected_meeting(app, processes[i].as_str(), clock::local_timestamp()));
            }
            if settings.detect_google_meet {
                if let Some(meeting) = detect_google_meet_in_browser(name.as_str()) {
                    return Some(meeting);
                }
            }
            i = i + 1;
        }
        None
    }

    /// Marks monitoring as started. Gives the generation of the run to start,
    /// or nothing if monitoring is active already.
    pub fn start_monitoring(&mut self) -> (res: Option<u64>)
        ensures
            *final(self) == started(*old(self)),
            match res {
                Some(generation) => !old(self).is_monitoring && generation
                    == final(self).monitor_generation,
                None => old(self).is_monitoring,
            },
    {
        if self.is_monitoring {
            return None;
        }
        self.is_monitoring = true;
        self.bump_generation();
        Some(self.monitor_generation)
    }

    /// Marks monitoring as stopped. The generation is bumped as well as the
    /// flag cleared: if monitoring is started again before the old run next
    /// looks, the flag alone would read true again.
    pub fn stop_monitoring(&mut self)
        ensures
            *final(self) == stopped(*old(self)),
    {
        self.bump_generation();
        self.is_monitoring = false;
    }

    /// Moves on to the next generation.
    fn bump_generation(&mut self)
        ensures
            *final(self) == (MeetingDetector {
                monitor_generation: next_generation(old(self).monitor_generation),
                ..*old(self)
            }),
    {
        self.monitor_generation =
        if self.monitor_generation == u64::MAX {
            0
        } else {
            self.monitor_generation + 1
        };
    }

    /// Whether a run of the monitor that was started with `generation` goes on.
    pub fn runs(&self, generation: u64) -> (res: bool)
        ensures
            res == runs(*self, generation),
    {
        self.is_monitoring && self.monitor_generation == generation
    }

    /// Gives up the recording that the detector had started: it is stopped, or
    /// is now the user's.
    pub fn release_recording(&mut self)
        ensures
            *final(self) == (MeetingDetector { auto_recording_active: false, ..*old(self) }),
    {
        self.auto_recording_active = false;
    }
}

/// An application whose detection is switched off is never reported.
pub proof fn law_switched_off_is_not_reported(
    processes: Seq<String>,
    teams: Seq<String>,
    settings: MeetingDetectionSettings,
    i: int,
    app: MeetingApp,
)
    requires
        first_meeting_at(processes, teams, settings, i, app),
    ensures
        match app {
            MeetingApp::Zoom => settings.detect_zoom,
            MeetingApp::MicrosoftTeams => settings.detect_teams,
        },
{
}

/// However the processes are looked through, the same meeting is reported but
/// for the time: reports of the same processes agree.
pub proof fn law_reports_agree(
    a: Option<DetectedMeeting>,
    b: Option<DetectedMeeting>,
    processes: Seq<String>,
    teams: Seq<String>,
    settings: MeetingDetectionSettings,
)
    requires
        reported(a, processes, teams, settings),
        reported(b, processes, teams, settings),
    ensures
        a is Some <==> b is Some,
        a matches Some(m) ==> {
            &&& m.app_name@ == b->0.app_name@
            &&& m.process_name@ == b->0.process_name@
            &&& m.is_active_meeting && b->0.is_active_meeting
        },
{
    if let Some(m) = a {
        let (i, app): (int, MeetingApp) = choose|i: int, app: MeetingApp|
            {
                &&& #[trigger] first_meeting_at(processes, teams, settings, i, app)
                &&& m.app_name@ == app_title(app)
                &&& m.process_name@ == processes[i]@
                &&& m.is_active_meeting
            };
        assert(process_app(processes[i], teams, settings) is Some);
        if let Some(n) = b {
            let (j, other): (int, MeetingApp) = choose|j: int, other: MeetingApp|
                {
                    &&& #[trigger] first_meeting_at(processes, teams, settings, j, other)
                    &&& n.app_name@ == app_title(other)
                    &&& n.process_name@ == processes[j]@
                    &&& n.is_active_meeting
                };
            assert(process_app(processes[j], teams, settings) is Some);
            assert(i == j);
        }
    } else if let Some(n) = b {
        let (j, other): (int, MeetingApp) = choose|j: int, other: MeetingApp|
            {
                &&& #[trigger] first_meeting_at(processes, teams, settings, j, other)
                &&& n.app_name@ == app_title(other)
                &&& n.process_name@ == processes[j]@
                &&& n.is_active_meeting
            };
        assert(process_app(processes[j], teams, settings) is Some);
    }
}

/// What may be asked of the monitor.
pub enum Command {
    Start,
    Stop,
}

/// The detector once one thing was asked.
pub open spec fn obeyed(detector: MeetingDetector, command: Command) -> MeetingDetector {
    match command {
        Command::Start => started(detector),
        Command::Stop => stopped(detector),
    }
}

/// The detector once all of `commands` were asked, in order.
pub open spec fn after_commands(
    detector: MeetingDetector,
    commands: Seq<Command>,
) -> MeetingDetector
    decreases commands.len(),
{
    if commands.len() == 0 {
        detector
    } else {
        obeyed(after_commands(detector, commands.drop_last()), commands.last())
    }
}

/// The command at `i` starts a run of the monitor.
pub open spec fn starts_run(detector: MeetingDetector, commands: Seq<Command>, i: int) -> bool {
    &&& 0 <= i < commands.len()
    &&& commands[i] is Start
    &&& !after_commands(detector, commands.take(i)).is_monitoring
}

/// The generation with which the command at `i` starts a run.
pub open spec fn run_generation(
    detector: MeetingDetector,
    commands: Seq<Command>,
    i: int,
) -> u64 {
    after_commands(detector, commands.take(i + 1)).monitor_generation
}

/// How often the generation is bumped by `commands`.
spec fn bumps(detector: MeetingDetector, commands: Seq<Command>) -> nat
    decreases commands.len(),
{
    if commands.len() == 0 {
        0
    } else {
        let before = commands.drop_last();
        let bumped = commands.last() is Stop || !after_commands(detector, before).is_monitoring;
        bumps(detector, before) + if bumped {
            1nat
        } else {
            0
        }
    }
}

proof fn lemma_generation_counts_bumps(detector: MeetingDetector, commands: Seq<Command>)
    ensures
        after_commands(detector, commands).monitor_generation == (detector.monitor_generation
            + bumps(detector, commands)) % (u64::MAX + 1),
    decreases commands.len(),
{
    if commands.len() > 0 {
        lemma_generation_counts_bumps(detector, commands.drop_last());
    }
}

proof fn lemma_bumps_grow(detector: MeetingDetector, commands: Seq<Command>, i: int, k: int)
    requires
        0 <= i <= k <= commands.len(),
    ensures
        bumps(detector, commands.take(i)) <= bumps(detector, commands.take(k)) <= bumps(
            detector,
            commands.take(i),
        ) + (k - i),
    decreases k - i,
{
    if i < k {
        lemma_bumps_grow(detector, commands, i, k - 1);
        assert(commands.take(k).drop_last() =~= commands.take(k - 1));
    }
}

/// Two runs of the monitor never go on side by side: from the moment that a
/// later run was started, and however often monitoring is stopped and started
/// after that, an earlier run finds that it is over. (The generations repeat
/// only after as many commands as there are generations.)
pub proof fn law_one_run_at_a_time(
    detector: MeetingDetector,
    commands: Seq<Command>,
    i: int,
    j: int,
    k: int,
)
    requires
        starts_run(detector, commands, i),
        starts_run(detector, commands, j),
        i < j < k <= commands.len(),
        commands.len() <= u64::MAX,
    ensures
        runs(
            after_commands(detector, commands.take(i + 1)),
            run_generation(detector, commands, i),
        ),
        !runs(after_commands(detector, commands.take(k)), run_generation(detector, commands, i)),
{
    assert(commands.take(i + 1).drop_last() =~= commands.take(i));
    assert(commands.take(j + 1).drop_last() =~= commands.take(j));
    assert(commands.take(i + 1).last() == commands[i]);
    assert(commands.take(j + 1).last() == commands[j]);
    lemma_bumps_grow(detector, commands, i + 1, j);
    lemma_bumps_grow(detector, commands, j + 1, k);
    lemma_bumps_grow(detector, commands, i + 1, k);
    lemma_generation_counts_bumps(detector, commands.take(i + 1));
    lemma_generation_counts_bumps(detector, commands.take(k));
}

/// A run that was stopped stays stopped, whether or not another was started.
pub proof fn law_stopped_run_is_over(
    detector: MeetingDetector,
    commands: Seq<Command>,
    i: int,
    j: int,
    k: int,
)
    requires
        starts_run(detector, commands, i),
        i < j < k <= commands.len(),
        commands[j] is Stop,
        commands.len() <= u64::MAX,
    ensures
        !runs(after_commands(detector, commands.take(k)), run_generation(detector, commands, i)),
{
    assert(commands.take(i + 1).drop_last() =~= commands.take(i));
    assert(commands.take(j + 1).drop_last() =~= commands.take(j));
    assert(commands.take(j + 1).last() == commands[j]);
    lemma_bumps_grow(detector, commands, i + 1, j);
    lemma_bumps_grow(detector, commands, j + 1, k);
    lemma_bumps_grow(detector, commands, i + 1, k);
    lemma_generation_counts_bumps(detector, commands.take(i + 1));
    lemma_generation_counts_bumps(detector, commands.take(k));
}

/// The process name shows an active Zoom meeting: in whatever case, it holds
/// the name of the process that runs during one.
pub open spec fn shows_zoom(name: String) -> bool {
    text::occurs_in("cpthost"@, text::lowercase(name@))
}

/// The process name shows Teams: in whatever case, it holds one of the process
/// names of Teams.
pub open spec fn shows_teams(name: String, teams: Seq<String>) -> bool {
    exists|k: int|
        0 <= k < teams.len() && text::occurs_in(
            text::lowercase((#[trigger] teams[k])@),
            text::lowercase(name@),
        )
}

/// The process name means a meeting, as the settings ask: each application
/// counts where its own detection is on, whatever the other settings are.
pub open spec fn means_meeting(
    name: String,
    teams: Seq<String>,
    settings: MeetingDetectionSettings,
) -> bool {
    (settings.detect_zoom && shows_zoom(name)) || (settings.detect_teams && shows_teams(
        name,
        teams,
    ))
}

proof fn lemma_process_app(
    name: String,
    teams: Seq<String>,
    settings: MeetingDetectionSettings,
)
    ensures
        process_app(name, teams, settings) == if settings.detect_zoom && shows_zoom(name) {
            Some(MeetingApp::Zoom)
        } else if settings.detect_teams && shows_teams(name, teams) {
            Some(MeetingApp::MicrosoftTeams)
        } else {
            None
        },
{
    let lowered = lowercase_all(teams);
    let own = text::lowercase(name@);
    if exists|i: int| 0 <= i < lowered.len() && text::occurs_in(#[trigger] lowered[i], own) {
        let i: int = choose|i: int|
            0 <= i < lowered.len() && text::occurs_in(#[trigger] lowered[i], own);
        assert(lowered[i] == text::lowercase(teams[i]@));
    }
    if shows_teams(name, teams) {
        let k: int = choose|k: int|
            0 <= k < teams.len() && text::occurs_in(
                text::lowercase((#[trigger] teams[k])@),
                own,
            );
        assert(lowered[k] == text::lowercase(teams[k]@));
    }
}

/// A meeting is reported exactly where some process means one, and the report
/// names the first process that does, and its application: Zoom where the
/// process shows Zoom and Zoom is detected, and else Teams.
pub proof fn law_report_names_first_meeting_process(
    meeting: Option<DetectedMeeting>,
    processes: Seq<String>,
    teams: Seq<String>,
    settings: MeetingDetectionSettings,
)
    requires
        reported(meeting, processes, teams, settings),
    ensures
        match meeting {
            None => forall|j: int|
                0 <= j < processes.len() ==> !means_meeting(
                    #[trigger] processes[j],
                    teams,
                    settings,
                ),
            Some(m) => m.is_active_meeting && exists|i: int|
                {
                    &&& 0 <= i < processes.len()
                    &&& means_meeting(#[trigger] processes[i], teams, settings)
                    &&& forall|j: int|
                        0 <= j < i ==> !means_meeting(#[trigger] processes[j], teams, settings)
                    &&& m.process_name@ == processes[i]@
                    &&& m.app_name@ == if settings.detect_zoom && shows_zoom(processes[i]) {
                        "Zoom"@
                    } else {
                        "Microsoft Teams"@
                    }
                },
        },
{
    assert forall|j: int| 0 <= j < processes.len() implies means_meeting(
        #[trigger] processes[j],
        teams,
        settings,
    ) == (process_app(processes[j], teams, settings) is Some) by {
        lemma_process_app(processes[j], teams, settings);
    }
    if let Some(m) = meeting {
        let (i, app): (int, MeetingApp) = choose|i: int, app: MeetingApp|
            {
                &&& #[trigger] first_meeting_at(processes, teams, settings, i, app)
                &&& m.app_name@ == app_title(app)
                &&& m.process_name@ == processes[i]@
                &&& m.is_active_meeting
            };
        lemma_process_app(processes[i], teams, settings);
        assert(means_meeting(processes[i], teams, settings));
    }
}

/// Whether Zoom is detected rests on the setting for Zoom alone: where it is on
/// and some process shows Zoom, a meeting is reported, whatever the setting for
/// Teams, and with Teams off it is one of Zoom. The same holds of Teams.
pub proof fn law_settings_do_not_interfere(
    meeting: Option<DetectedMeeting>,
    processes: Seq<String>,
    teams: Seq<String>,
    settings: MeetingDetectionSettings,
    i: int,
)
    requires
        reported(meeting, processes, teams, settings),
        0 <= i < processes.len(),
    ensures
        settings.detect_zoom && shows_zoom(processes[i]) ==> meeting is Some,
        settings.detect_teams && shows_teams(processes[i], teams) ==> meeting is Some,
        !settings.detect_teams ==> (meeting matches Some(m) ==> m.app_name@ == "Zoom"@),
        !settings.detect_zoom ==> (meeting matches Some(m) ==> m.app_name@
            == "Microsoft Teams"@),
        !settings.detect_zoom && !settings.detect_teams ==> meeting is None,
{
    law_report_names_first_meeting_process(meeting, processes, teams, settings);
    if settings.detect_zoom && shows_zoom(processes[i]) {
        assert(means_meeting(processes[i], teams, settings));
    }
    if settings.detect_teams && shows_teams(processes[i], teams) {
        assert(means_meeting(processes[i], teams, settings));
    }
}

/// The setting for one application does not change what is reported of
/// processes that do not show that application.
pub proof fn law_other_setting_changes_nothing(
    a: Option<DetectedMeeting>,
    b: Option<DetectedMeeting>,
    processes: Seq<String>,
    teams: Seq<String>,
    settings: MeetingDetectionSettings,
    other: MeetingDetectionSettings,
)
    requires
        reported(a, processes, teams, settings),
        reported(b, processes, teams, other),
        (settings.detect_zoom == other.detect_zoom && forall|i: int|
            0 <= i < processes.len() ==> !shows_teams(#[trigger] processes[i], teams)) || (
        settings.detect_teams == other.detect_teams && forall|i: int|
            0 <= i < processes.len() ==> !shows_zoom(#[trigger] processes[i])),
    ensures
        a is Some <==> b is Some,
        a matches Some(m) ==> m.app_name@ == b->0.app_name@ && m.process_name@
            == b->0.process_name@,
{
    law_report_names_first_meeting_process(a, processes, teams, settings);
    law_report_names_first_meeting_process(b, processes, teams, other);
    assert(forall|i: int|
        0 <= i < processes.len() ==> means_meeting(#[trigger] processes[i], teams, settings)
            == means_meeting(processes[i], teams, other));
}

/// Starting and stopping change whether the monitor runs, and nothing that was
/// detected or set; starting what runs already changes nothing. After a start
/// the run that it names goes on, and after a stop none does.
pub proof fn law_start_and_stop_change_monitoring_only(detector: MeetingDetector, generation: u64)
    ensures
        ({
            let on = started(detector);
            let off = stopped(detector);
            &&& on.is_monitoring
            &&& detector.is_monitoring ==> on == detector
            &&& !detector.is_monitoring ==> on.monitor_generation != detector.monitor_generation
            &&& runs(on, generation) <==> generation == on.monitor_generation
            &&& !off.is_monitoring
            &&& off.monitor_generation != detector.monitor_generation
            &&& !runs(off, generation)
            &&& on.settings == detector.settings && off.settings == detector.settings
            &&& on.current_meeting == detector.current_meeting && off.current_meeting
                == detector.current_meeting
            &&& on.auto_recording_active == detector.auto_recording_active
                && off.auto_recording_active == detector.auto_recording_active
        }),
{
}

/// A new detector goes by the settings in force, monitors nothing, has detected
/// nothing and owns no recording.
pub proof fn law_new_detector_is_idle(settings: MeetingDetectionSettings)
    ensures
        ({
            let detector = new_detector(settings);
            &&& detector.settings == settings
            &&& !detector.is_monitoring
            &&& detector.current_meeting is None
            &&& !detector.auto_recording_active
        }),
{
}

/// Whatever a process is called, Zoom is seen by its own mark and setting, and
/// Teams by its own names and setting where Zoom is not seen.
pub proof fn law_applications_are_told_apart(
    lowered: Seq<char>,
    teams_lowered: Seq<Seq<char>>,
    settings: MeetingDetectionSettings,
)
    ensures
        app_of(lowered, teams_lowered, settings) == Some(MeetingApp::Zoom)
            <==> settings.detect_zoom && text::occurs_in("cpthost"@, lowered),
        app_of(lowered, teams_lowered, settings) == Some(MeetingApp::MicrosoftTeams)
            <==> settings.detect_teams && !(settings.detect_zoom && text::occurs_in(
            "cpthost"@,
            lowered,
        )) && exists|i: int|
            0 <= i < teams_lowered.len() && text::occurs_in(#[trigger] teams_lowered[i], lowered),
        app_title(MeetingApp::Zoom) == "Zoom"@,
        app_title(MeetingApp::MicrosoftTeams) == "Microsoft Teams"@,
{
}

} // verus!
