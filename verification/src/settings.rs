//! Settings of the meeting detection.

use vstd::prelude::*;
use vstd::string::*;

use crate::text;

verus! {

/// Settings for meeting detection behavior.
#[derive(Debug)]
pub struct MeetingDetectionSettings {
    /// Whether meeting detection is enabled.
    pub enabled: bool,
    /// Automatically start recording when a meeting is detected.
    pub auto_start_recording: bool,
    /// Automatically stop recording when a meeting ends.
    pub auto_stop_recording: bool,
    /// Detect Zoom meetings.
    pub detect_zoom: bool,
    /// Detect Microsoft Teams meetings.
    pub detect_teams: bool,
    /// Detect Google Meet meetings. That takes a look at the windows of the
    /// browser, which process names do not give, so none is reported yet.
    pub detect_google_meet: bool,
    /// Show notification when a meeting is detected.
    pub notify_on_detection: bool,
    /// Polling interval in seconds.
    pub poll_interval_secs: u64,
    /// Seconds to wait after the meeting process disappears before treating
    /// the meeting as ended. Absorbs a brief drop-and-rejoin without splitting
    /// one meeting into two recordings.
    pub auto_stop_grace_secs: u64,
}

impl Clone for MeetingDetectionSettings {
    fn clone(&self) -> (res: Self)
        ensures
            res == *self,
    {
        MeetingDetectionSettings {
            enabled: self.enabled,
            auto_start_recording: self.auto_start_recording,
            auto_stop_recording: self.auto_stop_recording,
            detect_zoom: self.detect_zoom,
            detect_teams: self.detect_teams,
            detect_google_meet: self.detect_google_meet,
            notify_on_detection: self.notify_on_detection,
            poll_interval_secs: self.poll_interval_secs,
            auto_stop_grace_secs: self.auto_stop_grace_secs,
        }
    }
}

/// The grace period of settings that name none.
pub fn default_auto_stop_grace_secs() -> (res: u64)
    ensures
        res == 30,
{
    30
}

/// The settings of a user who has chosen none. Detection is off: it is opt-in
/// for privacy.
pub open spec fn default_settings() -> MeetingDetectionSettings {
    MeetingDetectionSettings {
        enabled: false,
        auto_start_recording: false,
        auto_stop_recording: true,
        detect_zoom: true,
        detect_teams: true,
        detect_google_meet: true,
        notify_on_detection: true,
        poll_interval_secs: 5,
        auto_stop_grace_secs: 30,
    }
}

/// `settings` with a polling interval of zero made one second.
pub open spec fn sanitized_settings(
    settings: MeetingDetectionSettings,
) -> MeetingDetectionSettings {
    if settings.poll_interval_secs == 0 {
        MeetingDetectionSettings { poll_interval_secs: 1, ..settings }
    } else {
        settings
    }
}

/// The settings in force, given what was found stored.
pub open spec fn loaded_settings(
    stored: Option<MeetingDetectionSettings>,
) -> MeetingDetectionSettings {
    match stored {
        Some(settings) => sanitized_settings(settings),
        None => default_settings(),
    }
}

impl Default for MeetingDetectionSettings {
    fn default() -> (res: Self)
        ensures
            res == default_settings(),
    {
        MeetingDetectionSettings {
            enabled: false,
            auto_start_recording: false,
            auto_stop_recording: true,
            detect_zoom: true,
            detect_teams: true,
            detect_google_meet: true,
            notify_on_detection: true,
            poll_interval_secs: 5,
            auto_stop_grace_secs: default_auto_stop_grace_secs(),
        }
    }
}

/// What saving the settings does, in this order.
#[derive(Debug, Clone, Copy, PartialEq, Eq, Structural)]
pub enum SaveStep {
    /// Find out where the settings file is.
    FindPath,
    /// Make sure that its directory exists.
    CreateDirectory,
    /// Turn the settings into text.
    Serialize,
    /// Write the text to the file.
    WriteFile,
}

/// What follows a step of saving.
#[derive(Debug)]
pub enum SaveNext {
    /// Go on with another step.
    Continue(SaveStep),
    /// The settings are saved.
    Saved,
    /// They are not, for the reason given.
    Failed(String),
}

/// The step after `step`, if there is one.
pub open spec fn step_after(step: SaveStep) -> Option<SaveStep> {
    match step {
        SaveStep::FindPath => Some(SaveStep::CreateDirectory),
        SaveStep::CreateDirectory => Some(SaveStep::Serialize),
        SaveStep::Serialize => Some(SaveStep::WriteFile),
        SaveStep::WriteFile => None,
    }
}

/// The reason given when `step` fails with the error text `error`.
pub open spec fn save_failure(step: SaveStep, error: Seq<char>) -> Seq<char> {
    match step {
        SaveStep::FindPath => "Could not determine settings path"@,
        SaveStep::CreateDirectory => "Failed to create settings directory: "@ + error,
        SaveStep::Serialize => "Failed to serialize settings: "@ + error,
        SaveStep::WriteFile => "Failed to write settings: "@ + error,
    }
}

impl MeetingDetectionSettings {
    /// The monitor pauses between polls.
    pub open spec fn wf(self) -> bool {
        self.poll_interval_secs > 0
    }

    /// Clamps values that would make the monitor misbehave. A polling interval
    /// of zero turns the monitor into a busy loop, and stored settings can be
    /// edited by hand, so they are never trusted.
    pub fn sanitized(self) -> (res: Self)
        ensures
            res == sanitized_settings(self),
            res.wf(),
    {
        let mut settings = self;
        if settings.poll_interval_secs == 0 {
            settings.poll_interval_secs = 1;
        }
        settings
    }

    /// The settings to go by: those that were stored, clamped, or the default
    /// ones where none could be found, read or understood.
    pub fn load(stored: Option<MeetingDetectionSettings>) -> (res: Self)
        ensures
            res == loaded_settings(stored),
            res.wf(),
    {
        match stored {
            Some(settings) => settings.sanitized(),
            None => MeetingDetectionSettings::default(),
        }
    }

    /// What to do once `step` of saving has come out as `outcome`, where an
    /// error is given by its text.
    pub fn save(step: SaveStep, outcome: Result<(), String>) -> (res: SaveNext)
        ensures
            match outcome {
                Ok(_) => match step_after(step) {
                    Some(next) => res == SaveNext::Continue(next),
                    None => res is Saved,
                },
                Err(error) => res matches SaveNext::Failed(reason) && reason@ == save_failure(
                    step,
                    error@,
                ),
            },
    {
        match outcome {
            Ok(_) => match step {
                SaveStep::FindPath => SaveNext::Continue(SaveStep::CreateDirectory),
                SaveStep::CreateDirectory => SaveNext::Continue(SaveStep::Serialize),
                SaveStep::Serialize => SaveNext::Continue(SaveStep::WriteFile),
                SaveStep::WriteFile => SaveNext::Saved,
            },
            Err(error) => SaveNext::Failed(
                match step {
                    SaveStep::FindPath => "Could not determine settings path".to_owned(),
                    SaveStep::CreateDirectory => text::joined(
                        "Failed to create settings directory: ",
                        error.as_str(),
                    ),
                    SaveStep::Serialize => text::joined(
                        "Failed to serialize settings: ",
                        error.as_str(),
                    ),
                    SaveStep::WriteFile => text::joined(
                        "Failed to write settings: ",
                        error.as_str(),
                    ),
                },
            ),
        }
    }
}

/// Clamping clamps once and for all: settings that were clamped before they
/// were stored are the settings that come back.
pub proof fn law_sanitized_once(settings: MeetingDetectionSettings)
    ensures
        sanitized_settings(sanitized_settings(settings)) == sanitized_settings(settings),
        loaded_settings(Some(sanitized_settings(settings))) == sanitized_settings(settings),
{
}

/// Whatever was stored, the settings in force make the monitor pause between
/// polls; and they are the stored ones wherever those do.
pub proof fn law_loaded_settings_pause(stored: Option<MeetingDetectionSettings>)
    ensures
        loaded_settings(stored).wf(),
        stored matches Some(settings) ==> (settings.wf() ==> loaded_settings(stored) == settings),
{
}

/// Clamping touches nothing but a polling interval of zero: every other
/// setting, and every other interval, stays as the user has chosen it.
pub proof fn law_clamping_touches_zero_interval_only(settings: MeetingDetectionSettings)
    ensures
        ({
            let clamped = sanitized_settings(settings);
            &&& clamped.enabled == settings.enabled
            &&& clamped.auto_start_recording == settings.auto_start_recording
            &&& clamped.auto_stop_recording == settings.auto_stop_recording
            &&& clamped.detect_zoom == settings.detect_zoom
            &&& clamped.detect_teams == settings.detect_teams
            &&& clamped.detect_google_meet == settings.detect_google_meet
            &&& clamped.notify_on_detection == settings.notify_on_detection
            &&& clamped.auto_stop_grace_secs == settings.auto_stop_grace_secs
            &&& settings.poll_interval_secs >= 1 ==> clamped.poll_interval_secs
                == settings.poll_interval_secs
            &&& settings.poll_interval_secs == 0 ==> clamped.poll_interval_secs == 1
        }),
{
}

/// Settings that the user has stored are those in force, whichever they are;
/// only where none are stored nothing is detected, nothing is recorded of its
/// own accord, and what is otherwise usual holds.
pub proof fn law_stored_settings_are_in_force(stored: Option<MeetingDetectionSettings>)
    ensures
        ({
            let loaded = loaded_settings(stored);
            match stored {
                Some(settings) => loaded == MeetingDetectionSettings {
                    poll_interval_secs: loaded.poll_interval_secs,
                    ..settings
                } && (loaded.poll_interval_secs == settings.poll_interval_secs || (
                settings.poll_interval_secs == 0 && loaded.poll_interval_secs == 1)),
                None => {
                    &&& !loaded.enabled
                    &&& !loaded.auto_start_recording
                    &&& loaded.auto_stop_recording
                    &&& loaded.detect_zoom
                    &&& loaded.detect_teams
                    &&& loaded.detect_google_meet
                    &&& loaded.notify_on_detection
                    &&& loaded.poll_interval_secs == 5
                    &&& loaded.auto_stop_grace_secs == 30
                },
            }
        }),
{
}

/// Saving finds the path, creates the directory, serializes and writes, each
/// once and in this order, and is done after that.
pub proof fn law_saving_takes_every_step_once(step: SaveStep)
    ensures
        match step_after(step) {
            Some(next) => match step {
                SaveStep::FindPath => next is CreateDirectory,
                SaveStep::CreateDirectory => next is Serialize,
                SaveStep::Serialize => next is WriteFile,
                SaveStep::WriteFile => false,
            },
            None => step is WriteFile,
        },
{
}

/// A failure says which step failed and, but for the path, ends with the error.
pub proof fn law_failure_tells_step_and_error(step: SaveStep, error: Seq<char>)
    ensures
        ({
            let reason = save_failure(step, error);
            match step {
                SaveStep::FindPath => reason == "Could not determine settings path"@,
                SaveStep::CreateDirectory => reason == "Failed to create settings directory: "@
                    + error,
                SaveStep::Serialize => reason == "Failed to serialize settings: "@ + error,
                SaveStep::WriteFile => reason == "Failed to write settings: "@ + error,
            }
        }),
{
}

} // verus!
