//! What holds of a run of the monitor as a whole, whatever it is told.

use vstd::prelude::*;

use crate::detector::DetectedMeeting;
use crate::detector::MeetingDetector;
use crate::monitor;
use crate::monitor::MonitorLoop;
use crate::settings::MeetingDetectionSettings;

verus! {

/// One thing that a run of the monitor is told.
pub enum Told {
    /// It wakes, and these are the settings of the moment.
    Settings { settings: MeetingDetectionSettings },
    /// Whether something is recorded, if it asked.
    Recording { recording: Option<bool>, now: u64 },
    /// What meeting there is.
    Meeting { meeting: Option<DetectedMeeting>, now: u64 },
    /// Its recording was started.
    AutoStarted { now: u64 },
    /// Its recording was stopped.
    AutoStopped,
}

/// A run of the monitor and the detector that it works for.
pub struct State {
    pub run: MonitorLoop,
    pub detector: MeetingDetector,
}

impl State {
    /// Run and detector are well-formed.
    pub open spec fn wf(self) -> bool {
        self.run.wf() && self.detector.wf()
    }
}

/// What is told is well-formed: settings make the monitor pause.
pub open spec fn told_wf(told: Told) -> bool {
    told matches Told::Settings { settings } ==> settings.wf()
}

/// The state once the run was told one thing.
pub open spec fn next(state: State, told: Told) -> State {
    match told {
        Told::Settings { settings } => State {
            run: MonitorLoop { settings, ..state.run },
            detector: MeetingDetector { settings, ..state.detector },
        },
        Told::Recording { recording, now } => State {
            run: monitor::watched(state.run, recording, now),
            detector: monitor::watched_detector(state.detector, state.run, recording, now),
        },
        Told::Meeting { meeting, now } => State {
            run: monitor::observed(state.run, meeting, now),
            detector: monitor::observed_detector(state.detector, state.run, meeting, now),
        },
        Told::AutoStarted { now } => State {
            run: monitor::auto_started(state.run, now),
            detector: MeetingDetector { auto_recording_active: true, ..state.detector },
        },
        Told::AutoStopped => State {
            detector: MeetingDetector { auto_recording_active: false, ..state.detector },
            ..state
        },
    }
}

/// The state once the run was told all of `story`, in order.
pub open spec fn after(state: State, story: Seq<Told>) -> State
    decreases story.len(),
{
    if story.len() == 0 {
        state
    } else {
        next(after(state, story.drop_last()), story.last())
    }
}

/// The state in which the run is told the thing at `i` of `story`.
pub open spec fn at(state: State, story: Seq<Told>, i: int) -> State {
    after(state, story.take(i))
}

/// The run reports that a meeting has started when it is told `told`.
pub open spec fn reports_start(state: State, told: Told) -> bool {
    told matches Told::Meeting { meeting, .. } && monitor::starts(state.run, meeting)
}

/// The run reports that the meeting has ended when it is told `told`.
pub open spec fn reports_end(state: State, told: Told) -> bool {
    told matches Told::Meeting { meeting, now } && monitor::ends(state.run, meeting, now)
}

/// The run asks for the recording to be stopped when it is told `told`.
pub open spec fn asks_stop(state: State, told: Told) -> bool {
    reports_end(state, told) && monitor::stops_recording(state.detector, state.run)
}

/// The run says that its recording has failed to start when it is told `told`.
pub open spec fn reports_failed_start(state: State, told: Told) -> bool {
    told matches Told::Recording { recording, now } && monitor::start_failed(
        state.run,
        recording,
        now,
    )
}

/// How many starts the run reports over `story`.
pub open spec fn start_count(state: State, story: Seq<Told>) -> nat
    decreases story.len(),
{
    if story.len() == 0 {
        0
    } else {
        start_count(state, story.drop_last()) + if reports_start(
            after(state, story.drop_last()),
            story.last(),
        ) {
            1nat
        } else {
            0
        }
    }
}

/// How many ends the run reports over `story`.
pub open spec fn end_count(state: State, story: Seq<Told>) -> nat
    decreases story.len(),
{
    if story.len() == 0 {
        0
    } else {
        end_count(state, story.drop_last()) + if reports_end(
            after(state, story.drop_last()),
            story.last(),
        ) {
            1nat
        } else {
            0
        }
    }
}

/// Going one step further in a story.
proof fn lemma_at_next(state: State, story: Seq<Told>, i: int)
    requires
        0 <= i < story.len(),
    ensures
        at(state, story, i + 1) == next(at(state, story, i), story[i]),
        at(state, story, 0) == state,
        at(state, story, story.len() as int) == after(state, story),
{
    assert(story.take(i + 1).drop_last() =~= story.take(i));
    assert(story.take(i + 1).last() == story[i]);
    assert(story.take(0) =~= Seq::<Told>::empty());
    assert(story.take(story.len() as int) =~= story);
}

/// Whatever a run is told, it goes on pausing between polls, waits for a
/// meeting process to come back only during a meeting, and for a recording to
/// begin only until it was seen running.
pub proof fn law_run_stays_well_formed(state: State, story: Seq<Told>)
    requires
        state.wf(),
        forall|i: int| 0 <= i < story.len() ==> told_wf(#[trigger] story[i]),
    ensures
        after(state, story).wf(),
    decreases story.len(),
{
    if story.len() > 0 {
        assert forall|i: int| 0 <= i < story.drop_last().len() implies told_wf(
            #[trigger] story.drop_last()[i],
        ) by {
            assert(story.drop_last()[i] == story[i]);
        }
        law_run_stays_well_formed(state, story.drop_last());
        assert(told_wf(story[story.len() - 1]));
    }
}

/// Starts and ends of meetings are reported in turn: a run that begins outside
/// a meeting has reported as many ends as starts while no meeting is on, and
/// one start more while one is.
pub proof fn law_starts_and_ends_alternate(state: State, story: Seq<Told>)
    requires
        !state.run.was_in_meeting,
    ensures
        start_count(state, story) == end_count(state, story) + if after(
            state,
            story,
        ).run.was_in_meeting {
            1int
        } else {
            0
        },
    decreases story.len(),
{
    if story.len() > 0 {
        law_starts_and_ends_alternate(state, story.drop_last());
    }
}

/// A meeting is on record exactly while one is on, from a start at which that
/// is so.
pub proof fn law_meeting_is_on_record_while_on(state: State, story: Seq<Told>)
    requires
        state.run.was_in_meeting <==> state.detector.current_meeting is Some,
    ensures
        after(state, story).run.was_in_meeting <==> after(
            state,
            story,
        ).detector.current_meeting is Some,
    decreases story.len(),
{
    if story.len() > 0 {
        law_meeting_is_on_record_while_on(state, story.drop_last());
    }
}

/// A poll at `i` of `story` has seen no meeting at the time `since`, and no
/// poll after it has seen one.
pub open spec fn gone_from(story: Seq<Told>, i: int, since: u64) -> bool {
    &&& 0 <= i < story.len()
    &&& story[i] == (Told::Meeting { meeting: None, now: since })
    &&& forall|k: int|
        i <= k < story.len() ==> (#[trigger] story[k] matches Told::Meeting { meeting, .. }
            ==> meeting is None)
}

proof fn lemma_gone_since(state: State, story: Seq<Told>) -> (i: int)
    requires
        state.run.pending_stop_since is None,
        after(state, story).run.pending_stop_since is Some,
    ensures
        gone_from(story, i, after(state, story).run.pending_stop_since->0),
    decreases story.len(),
{
    let before = story.drop_last();
    let last: int = story.len() - 1;
    let since: u64 = after(state, story).run.pending_stop_since->0;
    if after(state, before).run.pending_stop_since is Some {
        let i: int = lemma_gone_since(state, before);
        assert(after(state, before).run.pending_stop_since == Some(since));
        assert(story[i] == before[i]);
        assert forall|k: int| i <= k < story.len() implies (#[trigger] story[
            k
        ] matches Told::Meeting { meeting, .. } ==> meeting is None) by {
            if k < last {
                assert(before[k] == story[k]);
            }
        }
        i
    } else {
        assert(story[last] == (Told::Meeting { meeting: None, now: since }));
        last
    }
}

/// A meeting is reported as ended only once it was gone for the whole grace
/// period: from some poll on, a grace period or more before the report, no poll
/// has seen a meeting.
pub proof fn law_ends_only_after_grace_period(state: State, story: Seq<Told>) -> (i: int)
    requires
        state.run.pending_stop_since is None,
        story.len() > 0,
        reports_end(at(state, story, story.len() - 1), story.last()),
    ensures
        0 <= i < story.len(),
        story[i] matches Told::Meeting { meeting: seen, now: since } && story.last()
            matches Told::Meeting { meeting: _, now } && {
            let grace = at(state, story, story.len() - 1).run.settings.auto_stop_grace_secs;
            &&& gone_from(story, i, since)
            &&& grace == 0 || now - since >= grace * 1_000_000_000
        },
{
    let last: int = story.len() - 1;
    let before = story.drop_last();
    assert(story.take(last) =~= before);
    let run = at(state, story, last).run;
    if run.pending_stop_since is Some {
        let i: int = lemma_gone_since(state, before);
        assert(story[i] == before[i]);
        assert forall|k: int| i <= k < story.len() implies (#[trigger] story[
            k
        ] matches Told::Meeting { meeting, .. } ==> meeting is None) by {
            if k < last {
                assert(before[k] == story[k]);
            }
        }
        i
    } else {
        last
    }
}

/// `told` does not end a meeting that was first found gone at `since`: a poll
/// sees no meeting, but within the grace period, and the settings keep the
/// grace period as it is. Anything else may be told in between.
pub open spec fn waits(told: Told, since: u64, grace: u64) -> bool {
    match told {
        Told::Settings { settings } => settings.auto_stop_grace_secs == grace,
        Told::Meeting { meeting, now } => meeting is None && now - since < grace
            * 1_000_000_000,
        _ => true,
    }
}

/// Over `story`, a meeting is gone, but not for the whole grace period: the
/// first poll is at `first` and finds it gone at `since`, or there is none yet
/// where `first` is the length of the story.
pub open spec fn gone_within_grace(story: Seq<Told>, first: int, since: u64, grace: u64) -> bool {
    &&& 0 <= first <= story.len()
    &&& forall|k: int| 0 <= k < story.len() ==> waits(#[trigger] story[k], since, grace)
    &&& forall|k: int| 0 <= k < first ==> !(#[trigger] story[k] is Meeting)
    &&& first < story.len() ==> story[first] == (Told::Meeting { meeting: None, now: since })
}

/// What `story` tells but for what the polls have seen.
pub open spec fn without_polls(story: Seq<Told>) -> Seq<Told>
    decreases story.len(),
{
    if story.len() == 0 {
        story
    } else if story.last() is Meeting {
        without_polls(story.drop_last())
    } else {
        without_polls(story.drop_last()).push(story.last())
    }
}

/// Nothing in `story` takes the recording from the monitor.
pub open spec fn recording_goes_on(story: Seq<Told>) -> bool {
    forall|i: int|
        0 <= i < story.len() ==> !(#[trigger] story[i] is AutoStopped) && (
        story[i] matches Told::Recording { recording, .. } ==> recording != Some(false))
}

proof fn lemma_gone_waits(state: State, story: Seq<Told>, first: int, since: u64, grace: u64)
    requires
        state.run.was_in_meeting,
        state.run.pending_stop_since is None,
        state.run.settings.auto_stop_grace_secs == grace,
        gone_within_grace(story, first, since, grace),
    ensures
        ({
            let bare = after(state, without_polls(story));
            &&& bare.run.was_in_meeting
            &&& bare.run.pending_stop_since is None
            &&& bare.run.settings.auto_stop_grace_secs == grace
            &&& bare.detector.current_meeting == state.detector.current_meeting
            &&& after(state, story) == State {
                run: MonitorLoop {
                    pending_stop_since: if first < story.len() {
                        Some(since)
                    } else {
                        None
                    },
                    ..bare.run
                },
                ..bare
            }
        }),
        end_count(state, story) == 0,
        start_count(state, story) == 0,
    decreases story.len(),
{
    if story.len() > 0 {
        let before = story.drop_last();
        let last: int = story.len() - 1;
        assert(forall|k: int| 0 <= k < before.len() ==> #[trigger] before[k] == story[k]);
        assert(waits(story[last], since, grace));
        if first < story.len() {
            lemma_gone_waits(state, before, first, since, grace);
        } else {
            assert(!(story[last] is Meeting));
            lemma_gone_waits(state, before, last, since, grace);
        }
        let bare = after(state, without_polls(before));
        if !(story.last() is Meeting) {
            assert(without_polls(story).drop_last() =~= without_polls(before));
            assert(after(state, without_polls(story)) == next(bare, story.last()));
        }
        assert(!reports_end(after(state, before), story.last()));
        assert(!reports_start(after(state, before), story.last()));
    }
}

proof fn lemma_recording_stays(state: State, story: Seq<Told>)
    requires
        state.detector.auto_recording_active,
        recording_goes_on(story),
    ensures
        after(state, story).detector.auto_recording_active,
    decreases story.len(),
{
    if story.len() > 0 {
        let before = story.drop_last();
        assert(forall|k: int| 0 <= k < before.len() ==> #[trigger] before[k] == story[k]);
        lemma_recording_stays(state, before);
        assert(!(story[story.len() - 1] is AutoStopped));
    }
}

/// A drop and rejoin within the grace period is one meeting, whatever else the
/// run is told meanwhile: no end and no second start is reported, and the run
/// is as if the polls between had not been. The recording stays the monitor's
/// own unless it is stopped, and a meeting of the same application stays on
/// record as it was first seen.
pub proof fn law_rejoin_within_grace_is_one_meeting(
    state: State,
    story: Seq<Told>,
    first: int,
    since: u64,
    seen: DetectedMeeting,
    back: u64,
)
    requires
        state.run.was_in_meeting,
        state.run.pending_stop_since is None,
        gone_within_grace(story, first, since, state.run.settings.auto_stop_grace_secs),
    ensures
        ({
            let whole = story.push(Told::Meeting { meeting: Some(seen), now: back });
            let bare = after(state, without_polls(story));
            &&& start_count(state, whole) == 0
            &&& end_count(state, whole) == 0
            &&& after(state, whole).run == bare.run
            &&& after(state, whole).detector == MeetingDetector {
                current_meeting: monitor::refreshed(state.detector.current_meeting, seen),
                ..bare.detector
            }
            &&& state.detector.auto_recording_active && recording_goes_on(story) ==> after(
                state,
                whole,
            ).detector.auto_recording_active
            &&& (state.detector.current_meeting matches Some(known) ==> (known.app_name@
                == seen.app_name@ ==> after(state, whole).detector.current_meeting == Some(known)))
        }),
{
    lemma_gone_waits(state, story, first, since, state.run.settings.auto_stop_grace_secs);
    let whole = story.push(Told::Meeting { meeting: Some(seen), now: back });
    assert(whole.drop_last() =~= story);
    if state.detector.auto_recording_active && recording_goes_on(story) {
        lemma_recording_stays(state, story);
    }
}

/// A meeting that stays gone is reported as ended, whatever else the run is
/// told meanwhile: the first poll that finds the grace period over reports it,
/// once, and asks for the recording to be stopped if that is wanted by then and
/// the recording is then the monitor's own. Without a grace period that is the
/// first poll that finds the meeting gone.
pub proof fn law_lasting_absence_ends_meeting(
    state: State,
    story: Seq<Told>,
    first: int,
    since: u64,
    now: u64,
)
    requires
        state.run.was_in_meeting,
        state.run.pending_stop_since is None,
        gone_within_grace(story, first, since, state.run.settings.auto_stop_grace_secs),
        first == story.len() ==> since == now,
        now - since >= state.run.settings.auto_stop_grace_secs * 1_000_000_000,
    ensures
        ({
            let waiting = after(state, story);
            let told = Told::Meeting { meeting: None, now };
            &&& end_count(state, story) == 0
            &&& reports_end(waiting, told)
            &&& end_count(state, story.push(told)) == 1
            &&& asks_stop(waiting, told) == (waiting.run.settings.auto_stop_recording
                && waiting.detector.auto_recording_active)
            &&& state.detector.auto_recording_active && recording_goes_on(story)
                ==> waiting.detector.auto_recording_active
            &&& !next(waiting, told).run.was_in_meeting
            &&& next(waiting, told).detector.current_meeting is None
        }),
{
    lemma_gone_waits(state, story, first, since, state.run.settings.auto_stop_grace_secs);
    let told = Told::Meeting { meeting: None, now };
    assert(story.push(told).drop_last() =~= story);
    if state.detector.auto_recording_active && recording_goes_on(story) {
        lemma_recording_stays(state, story);
    }
}

/// Over `story`, no end of the meeting is reported, and no poll sees a meeting
/// of another application than `app_name`.
pub open spec fn stays_on(state: State, story: Seq<Told>, app_name: Seq<char>) -> bool {
    forall|i: int|
        0 <= i < story.len() ==> !reports_end(at(state, story, i), #[trigger] story[i]) && (
        story[i] matches Told::Meeting { meeting: Some(seen), .. } ==> seen.app_name@ == app_name)
}

/// The meeting on record says when the meeting was first seen, however often it
/// is seen again and whatever else the run is told: while a meeting of the same
/// application is on, it does not change.
pub proof fn law_meeting_keeps_first_sighting(
    state: State,
    first: DetectedMeeting,
    story: Seq<Told>,
)
    requires
        state.run.was_in_meeting,
        state.detector.current_meeting == Some(first),
        stays_on(state, story, first.app_name@),
    ensures
        after(state, story).run.was_in_meeting,
        after(state, story).detector.current_meeting == Some(first),
    decreases story.len(),
{
    if story.len() > 0 {
        let before = story.drop_last();
        let last: int = story.len() - 1;
        assert forall|i: int| 0 <= i < before.len() implies !reports_end(
            at(state, before, i),
            #[trigger] before[i],
        ) && (before[i] matches Told::Meeting { meeting: Some(seen), .. } ==> seen.app_name@
            == first.app_name@) by {
            assert(before[i] == story[i]);
            assert(before.take(i) =~= story.take(i));
        }
        law_meeting_keeps_first_sighting(state, first, before);
        assert(story.take(last) =~= before);
        assert(!reports_end(at(state, story, last), story[last]));
    }
}

/// Nothing in `story` starts a recording for the monitor.
pub open spec fn no_auto_start(story: Seq<Told>) -> bool {
    forall|i: int| 0 <= i < story.len() ==> !(#[trigger] story[i] is AutoStarted)
}

proof fn lemma_no_recording_stays(state: State, story: Seq<Told>)
    requires
        !state.detector.auto_recording_active,
        no_auto_start(story),
    ensures
        !after(state, story).detector.auto_recording_active,
    decreases story.len(),
{
    if story.len() > 0 {
        assert forall|i: int| 0 <= i < story.drop_last().len() implies !(
        #[trigger] story.drop_last()[i] is AutoStarted) by {
            assert(story.drop_last()[i] == story[i]);
        }
        lemma_no_recording_stays(state, story.drop_last());
        assert(!(story[story.len() - 1] is AutoStarted));
    }
}

/// A manual stop hands the recording back to the user: once the monitor has
/// seen its recording running and then not running, it never asks for a
/// recording to be stopped until it has started another.
pub proof fn law_manual_stop_hands_recording_back(
    state: State,
    now: u64,
    story: Seq<Told>,
    told: Told,
)
    requires
        state.run.auto_recording_observed,
        no_auto_start(story),
    ensures
        ({
            let released = next(state, Told::Recording { recording: Some(false), now });
            &&& !released.detector.auto_recording_active
            &&& !after(released, story).detector.auto_recording_active
            &&& !asks_stop(after(released, story), told)
        }),
{
    let released = next(state, Told::Recording { recording: Some(false), now });
    lemma_no_recording_stays(released, story);
}

/// Only a recording that the monitor has started is ever stopped: if it asks
/// for a stop, it has started a recording, and has not given it up since.
pub proof fn law_only_own_recording_is_stopped(
    state: State,
    story: Seq<Told>,
    told: Told,
) -> (j: int)
    requires
        !state.detector.auto_recording_active,
        asks_stop(after(state, story), told),
    ensures
        0 <= j < story.len(),
        story[j] is AutoStarted,
        forall|k: int|
            j < k <= story.len() ==> #[trigger] at(
                state,
                story,
                k,
            ).detector.auto_recording_active,
{
    lemma_active_since(state, story)
}

proof fn lemma_active_since(state: State, story: Seq<Told>) -> (j: int)
    requires
        !state.detector.auto_recording_active,
        after(state, story).detector.auto_recording_active,
    ensures
        0 <= j < story.len(),
        story[j] is AutoStarted,
        forall|k: int|
            j < k <= story.len() ==> #[trigger] at(
                state,
                story,
                k,
            ).detector.auto_recording_active,
    decreases story.len(),
{
    let before = story.drop_last();
    let last: int = story.len() - 1;
    assert(story.take(story.len() as int) =~= story);
    if story.last() is AutoStarted {
        last
    } else {
        let j: int = lemma_active_since(state, before);
        assert(story[j] == before[j]);
        assert forall|k: int| j < k <= story.len() implies #[trigger] at(
            state,
            story,
            k,
        ).detector.auto_recording_active by {
            if k <= last {
                assert(before.take(k) =~= story.take(k));
                assert(at(state, before, k).detector.auto_recording_active);
            }
        }
        j
    }
}

/// Nothing is ever recorded over `story`, and no other recording is started.
pub open spec fn never_records(story: Seq<Told>) -> bool {
    forall|i: int|
        0 <= i < story.len() ==> !(#[trigger] story[i] is AutoStarted) && (
        story[i] matches Told::Recording { recording, .. } ==> recording != Some(true))
}

/// Over `story`, the run is told whether something is recorded exactly while it
/// has a recording of its own.
pub open spec fn asks_about_own(state: State, story: Seq<Told>) -> bool {
    forall|i: int|
        0 <= i < story.len() ==> (#[trigger] story[i] matches Told::Recording { recording, .. }
            ==> (recording is Some <==> at(state, story, i).detector.auto_recording_active))
}

/// The answer at `i` of `story` comes when it is too late for a recording that
/// has to begin by `deadline`.
pub open spec fn answered_late(story: Seq<Told>, i: int, deadline: u128) -> bool {
    story[i] matches Told::Recording { recording, now } && recording is Some && now >= deadline
}

proof fn lemma_waits_for_start(state: State, story: Seq<Told>, deadline: u128)
    requires
        state.run.auto_start_deadline == Some(deadline),
        !state.run.auto_recording_observed,
        never_records(story),
        asks_about_own(state, story),
    ensures
        !after(state, story).run.auto_recording_observed,
        after(state, story).detector.auto_recording_active ==> after(
            state,
            story,
        ).run.auto_start_deadline == Some(deadline),
    decreases story.len(),
{
    if story.len() > 0 {
        let before = story.drop_last();
        let last: int = story.len() - 1;
        lemma_asks_before(state, story, last);
        assert(story.take(last) =~= before);
        lemma_waits_for_start(state, before, deadline);
        assert(!(story[last] is AutoStarted));
    }
}

proof fn lemma_asks_before(state: State, story: Seq<Told>, n: int)
    requires
        0 <= n <= story.len(),
        never_records(story),
        asks_about_own(state, story),
    ensures
        never_records(story.take(n)),
        asks_about_own(state, story.take(n)),
{
    let before = story.take(n);
    assert forall|i: int| 0 <= i < before.len() implies (#[trigger] before[
        i
    ] matches Told::Recording { recording, .. } ==> (recording is Some <==> at(
        state,
        before,
        i,
    ).detector.auto_recording_active)) by {
        assert(before[i] == story[i]);
        assert(before.take(i) =~= story.take(i));
    }
    assert forall|i: int| 0 <= i < before.len() implies !(#[trigger] before[i] is AutoStarted) && (
    before[i] matches Told::Recording { recording, .. } ==> recording != Some(true)) by {
        assert(before[i] == story[i]);
    }
}

proof fn lemma_given_up_stays(state: State, story: Seq<Told>, i: int, j: int)
    requires
        0 <= i <= j <= story.len(),
        never_records(story),
        !at(state, story, i).detector.auto_recording_active,
    ensures
        !at(state, story, j).detector.auto_recording_active,
    decreases j - i,
{
    if i < j {
        lemma_at_next(state, story, i);
        assert(!(story[i] is AutoStarted));
        lemma_given_up_stays(state, story, i + 1, j);
    }
}

/// A start that fails is reported, once, and gives the recording up: where
/// nothing is ever recorded after a start at `now`, the run reports the failure
/// when it first asks about the recording a minute after the start or later.
/// Before that it goes on waiting for the recording, and after that it has
/// nothing to ask about and never reports it again.
pub proof fn law_failed_start_is_reported_once(state: State, now: u64, story: Seq<Told>, i: int)
    requires
        never_records(story),
        asks_about_own(next(state, Told::AutoStarted { now }), story),
        0 <= i < story.len(),
    ensures
        ({
            let begun = next(state, Told::AutoStarted { now });
            let deadline = (now + 60_000_000_000) as u128;
            let reports = reports_failed_start(at(begun, story, i), story[i]);
            &&& reports <==> answered_late(story, i, deadline)
            &&& (story[i] matches Told::Recording { recording: Some(_), .. } ==> !reports ==> at(
                begun,
                story,
                i + 1,
            ).detector.auto_recording_active)
            &&& reports ==> forall|j: int|
                i < j <= story.len() ==> !(#[trigger] at(
                    begun,
                    story,
                    j,
                )).detector.auto_recording_active
            &&& reports ==> forall|j: int|
                i < j < story.len() ==> !reports_failed_start(
                    at(begun, story, j),
                    #[trigger] story[j],
                )
        }),
{
    let begun = next(state, Told::AutoStarted { now });
    let deadline = (now + 60_000_000_000) as u128;
    lemma_asks_before(begun, story, i);
    lemma_waits_for_start(begun, story.take(i), deadline);
    lemma_at_next(begun, story, i);
    assert(!(story[i] is AutoStarted));
    if reports_failed_start(at(begun, story, i), story[i]) {
        assert forall|j: int| i < j <= story.len() implies !(#[trigger] at(
            begun,
            story,
            j,
        )).detector.auto_recording_active by {
            lemma_given_up_stays(begun, story, i + 1, j);
        }
        assert forall|j: int| i < j < story.len() implies !reports_failed_start(
            at(begun, story, j),
            #[trigger] story[j],
        ) by {
            assert(!at(begun, story, j).detector.auto_recording_active);
        }
    }
}

proof fn lemma_no_deadline_stays(state: State, story: Seq<Told>)
    requires
        state.run.auto_start_deadline is None,
        no_auto_start(story),
    ensures
        after(state, story).run.auto_start_deadline is None,
    decreases story.len(),
{
    if story.len() > 0 {
        assert forall|i: int| 0 <= i < story.drop_last().len() implies !(
        #[trigger] story.drop_last()[i] is AutoStarted) by {
            assert(story.drop_last()[i] == story[i]);
        }
        lemma_no_deadline_stays(state, story.drop_last());
        assert(!(story[story.len() - 1] is AutoStarted));
    }
}

/// A recording that was seen running is never reported as failed to start,
/// however it ends.
pub proof fn law_begun_recording_is_not_reported_failed(
    state: State,
    now: u64,
    story: Seq<Told>,
    told: Told,
)
    requires
        no_auto_start(story),
    ensures
        !reports_failed_start(
            after(next(state, Told::Recording { recording: Some(true), now }), story),
            told,
        ),
{
    lemma_no_deadline_stays(next(state, Told::Recording { recording: Some(true), now }), story);
}

/// Over `story`, no recording is started or stopped by the monitor, and every
/// answer is that something is recorded.
pub open spec fn only_records(story: Seq<Told>) -> bool {
    forall|i: int|
        0 <= i < story.len() ==> !(#[trigger] story[i] is AutoStarted) && !(
        story[i] is AutoStopped) && (story[i] matches Told::Recording { recording, .. }
            ==> recording == Some(true))
}

/// The run is told, at `i` of `story`, that something is recorded.
pub open spec fn is_told_of_recording(story: Seq<Told>, i: int) -> bool {
    story[i] matches Told::Recording { recording, .. } && recording == Some(true)
}

proof fn lemma_recording_is_noticed(state: State, story: Seq<Told>)
    requires
        state.detector.auto_recording_active,
        only_records(story),
    ensures
        after(state, story).detector.auto_recording_active,
        (exists|i: int| 0 <= i < story.len() && #[trigger] is_told_of_recording(story, i)) ==> after(
            state,
            story,
        ).run.auto_recording_observed,
        state.run.auto_recording_observed ==> after(state, story).run.auto_recording_observed,
    decreases story.len(),
{
    if story.len() > 0 {
        let before = story.drop_last();
        let last: int = story.len() - 1;
        assert(forall|k: int| 0 <= k < before.len() ==> #[trigger] before[k] == story[k]);
        lemma_recording_is_noticed(state, before);
        assert(!(story[last] is AutoStarted) && !(story[last] is AutoStopped));
        if exists|i: int| 0 <= i < story.len() && #[trigger] is_told_of_recording(story, i) {
            let i: int = choose|i: int|
                0 <= i < story.len() && #[trigger] is_told_of_recording(story, i);
            if i < last {
                assert(before[i] == story[i]);
                assert(is_told_of_recording(before, i));
            }
        }
    }
}

/// A recording that the user stops is the user's: once the run was told, while
/// it owned a recording, that something is recorded, once or more often and
/// whatever else in between, the next answer that nothing is recorded takes the
/// recording from it. That is no failed start, and until the run has started
/// another recording it asks for none to be stopped, however many meetings end.
pub proof fn law_stop_by_user_ends_ownership(
    state: State,
    story: Seq<Told>,
    i: int,
    now: u64,
    later: Seq<Told>,
    told: Told,
)
    requires
        state.detector.auto_recording_active,
        only_records(story),
        0 <= i < story.len(),
        is_told_of_recording(story, i),
        no_auto_start(later),
    ensures
        ({
            let recorded = after(state, story);
            let answer = Told::Recording { recording: Some(false), now };
            let released = next(recorded, answer);
            &&& recorded.detector.auto_recording_active
            &&& monitor::stopped_by_user(recorded.run, Some(false))
            &&& !reports_failed_start(recorded, answer)
            &&& !released.detector.auto_recording_active
            &&& !released.run.auto_recording_observed
            &&& !after(released, later).detector.auto_recording_active
            &&& !asks_stop(after(released, later), told)
        }),
{
    lemma_recording_is_noticed(state, story);
    let released = next(after(state, story), Told::Recording { recording: Some(false), now });
    lemma_no_recording_stays(released, later);
}

/// A recording that was not seen running yet is not given up before its time:
/// an answer that nothing is recorded leaves it the monitor's own, and is no
/// stop by the user.
pub proof fn law_recording_may_take_time_to_begin(state: State, begun: u64, now: u64)
    requires
        now < begun + 60_000_000_000,
    ensures
        ({
            let started = next(state, Told::AutoStarted { now: begun });
            let answer = Told::Recording { recording: Some(false), now };
            &&& !monitor::stopped_by_user(started.run, Some(false))
            &&& !reports_failed_start(started, answer)
            &&& next(started, answer) == started
            &&& started.detector.auto_recording_active
        }),
{
}

/// What a poll sees has no bearing on the recording, the settings and the run as
/// such: who owns the recording, whether it was seen running and by when it has
/// to begin stay as they are.
pub proof fn law_polls_leave_recording_alone(
    state: State,
    meeting: Option<DetectedMeeting>,
    now: u64,
)
    ensures
        ({
            let then = next(state, Told::Meeting { meeting, now });
            &&& then.detector.auto_recording_active == state.detector.auto_recording_active
            &&& then.run.auto_recording_observed == state.run.auto_recording_observed
            &&& then.run.auto_start_deadline == state.run.auto_start_deadline
            &&& then.run.settings == state.run.settings
            &&& then.run.generation == state.run.generation
            &&& then.detector.settings == state.detector.settings
            &&& then.detector.is_monitoring == state.detector.is_monitoring
            &&& then.detector.monitor_generation == state.detector.monitor_generation
        }),
{
}

/// What is told of the recording has no bearing on the meeting: whether one is
/// on, which is on record and since when it is gone stay as they are, and so do
/// the settings and the run as such.
pub proof fn law_answers_leave_meeting_alone(state: State, told: Told)
    requires
        !(told is Meeting),
        !(told is Settings),
    ensures
        next(state, told).run.was_in_meeting == state.run.was_in_meeting,
        next(state, told).run.pending_stop_since == state.run.pending_stop_since,
        next(state, told).run.settings == state.run.settings,
        next(state, told).run.generation == state.run.generation,
        next(state, told).detector.current_meeting == state.detector.current_meeting,
        next(state, told).detector.settings == state.detector.settings,
        next(state, told).detector.is_monitoring == state.detector.is_monitoring,
        next(state, told).detector.monitor_generation == state.detector.monitor_generation,
{
}

/// Settings have no bearing on anything but what goes by them.
pub proof fn law_settings_change_settings_only(state: State, settings: MeetingDetectionSettings)
    ensures
        ({
            let then = next(state, Told::Settings { settings });
            &&& then.run == MonitorLoop { settings, ..state.run }
            &&& then.detector == MeetingDetector { settings, ..state.detector }
        }),
{
}

/// A meeting that is seen while none is on has started: it is reported and put
/// on record. While one is on, none starts, and one of another application
/// takes the place of the one on record.
pub proof fn law_seen_meeting_is_put_on_record(state: State, seen: DetectedMeeting, now: u64)
    ensures
        ({
            let told = Told::Meeting { meeting: Some(seen), now };
            let then = next(state, told);
            &&& reports_start(state, told) <==> !state.run.was_in_meeting
            &&& !reports_end(state, told)
            &&& then.run.was_in_meeting
            &&& then.run.pending_stop_since is None
            &&& !state.run.was_in_meeting ==> then.detector.current_meeting == Some(seen)
            &&& state.run.was_in_meeting ==> match state.detector.current_meeting {
                Some(known) => if known.app_name@ == seen.app_name@ {
                    then.detector.current_meeting == Some(known)
                } else {
                    then.detector.current_meeting == Some(seen)
                },
                None => then.detector.current_meeting == Some(seen),
            }
        }),
{
}

/// Where no meeting is on and none is seen, nothing changes and nothing is
/// reported.
pub proof fn law_no_meeting_changes_nothing(state: State, now: u64)
    requires
        !state.run.was_in_meeting,
    ensures
        ({
            let told = Told::Meeting { meeting: None, now };
            &&& next(state, told) == state
            &&& !reports_start(state, told)
            &&& !reports_end(state, told)
        }),
{
}

/// A meeting that is gone is waited for from the first poll that finds it gone,
/// and no longer than the grace period: the poll either reports the end, or goes
/// on waiting, with the meeting on record.
pub proof fn law_gone_meeting_ends_or_is_waited_for(state: State, now: u64)
    requires
        state.run.was_in_meeting,
    ensures
        ({
            let told = Told::Meeting { meeting: None, now };
            let then = next(state, told);
            let since = match state.run.pending_stop_since {
                Some(first) => first,
                None => now,
            };
            let grace = state.run.settings.auto_stop_grace_secs;
            &&& !reports_start(state, told)
            &&& reports_end(state, told) <==> grace == 0 || now - since >= grace * 1_000_000_000
            &&& reports_end(state, told) ==> !then.run.was_in_meeting
                && then.run.pending_stop_since is None && then.detector.current_meeting is None
            &&& !reports_end(state, told) ==> then.run.was_in_meeting
                && then.run.pending_stop_since == Some(since) && then.detector.current_meeting
                == state.detector.current_meeting
            &&& asks_stop(state, told) <==> reports_end(state, told)
                && state.run.settings.auto_stop_recording && state.detector.auto_recording_active
        }),
{
}

/// A recording that was started is the monitor's own, was not seen running yet,
/// and has a minute to begin; one that was stopped is its own no more.
pub proof fn law_ownership_begins_and_ends(state: State, now: u64)
    ensures
        ({
            let begun = next(state, Told::AutoStarted { now });
            let ended = next(state, Told::AutoStopped);
            &&& begun.detector.auto_recording_active
            &&& !begun.run.auto_recording_observed
            &&& begun.run.auto_start_deadline == Some((now + 60_000_000_000) as u128)
            &&& !ended.detector.auto_recording_active
            &&& ended.run == state.run
        }),
{
}

/// Without a recording of its own, the run forgets what it remembers of one, and
/// the detector stays as it is.
pub proof fn law_without_recording_nothing_is_remembered(state: State, now: u64)
    ensures
        ({
            let then = next(state, Told::Recording { recording: None, now });
            &&& !then.run.auto_recording_observed
            &&& then.run.auto_start_deadline is None
            &&& then.detector == state.detector
            &&& !reports_failed_start(state, Told::Recording { recording: None, now })
        }),
{
}

/// A run that begins remembers nothing: no meeting is on or waited for, and no
/// recording.
pub proof fn law_new_run_remembers_nothing(generation: u64, settings: MeetingDetectionSettings)
    ensures
        ({
            let run = monitor::new_run(generation, settings);
            &&& run.generation == generation
            &&& run.settings == settings
            &&& !run.was_in_meeting
            &&& run.pending_stop_since is None
            &&& !run.auto_recording_observed
            &&& run.auto_start_deadline is None
        }),
{
}

/// What a meeting is announced by: its application, and whether a recording is
/// being started.
pub proof fn law_announcement_says_what_happens(
    notice: monitor::Notification,
    app_name: Seq<char>,
    settings: MeetingDetectionSettings,
)
    requires
        monitor::announces(notice, app_name, settings),
    ensures
        notice.title@ == app_name + " Meeting Detected"@,
        settings.auto_start_recording ==> notice.body@ == "Meetily is starting a recording"@,
        !settings.auto_start_recording ==> notice.body@
            == "Open Meetily to record this meeting"@,
        monitor::START_FAILED_TITLE@ == "Meetily couldn't start recording"@,
        monitor::START_FAILED_BODY@
            == "A meeting was detected but recording didn't start. Open Meetily to record it."@,
{
}

/// A run wakes for nothing where it is over, sleeps for as long as the settings
/// say where detection is off, and else polls, asking about a recording exactly
/// where it owns one.
pub proof fn law_waking_goes_by_the_detector(detector: MeetingDetector, generation: u64)
    ensures
        monitor::woken(detector, generation) == if !detector.is_monitoring
            || detector.monitor_generation != generation {
            monitor::Wake::Exit
        } else if !detector.settings.enabled {
            monitor::Wake::Sleep { secs: detector.settings.poll_interval_secs }
        } else {
            monitor::Wake::Poll { ask_recording: detector.auto_recording_active }
        },
{
}

} // verus!
