//! The meeting state machine: it follows, poll by poll, whether a meeting
//! is believed to be in progress, and decides which events the host is sent.

use vstd::prelude::*;
use vstd::string::StringExecFns;
use crate::detection::{DetectedMeeting, DetectedMeetingView, meeting_view};
use crate::settings::MeetingDetectionSettings;

verus! {

/// An event for the host application. The detector only signals: the host
/// shows the notification and starts or stops the recording.
#[derive(Debug)]
pub enum DetectorEvent {
    /// A meeting has started.
    MeetingDetected(DetectedMeeting),
    /// The user is to be told of the meeting.
    Notification { title: String, body: String },
    /// A recording is to begin.
    AutoStartRecording { meeting_name: String, app_name: String },
    /// The meeting has ended.
    MeetingEnded,
    /// The recording that the detector started is to stop.
    AutoStopRecording,
}

/// An event as a plain value.
pub enum DetectorEventView {
    MeetingDetected(DetectedMeetingView),
    Notification { title: Seq<char>, body: Seq<char> },
    AutoStartRecording { meeting_name: Seq<char>, app_name: Seq<char> },
    MeetingEnded,
    AutoStopRecording,
}

impl View for DetectorEvent {
    type V = DetectorEventView;

    open spec fn view(&self) -> DetectorEventView {
        match *self {
            DetectorEvent::MeetingDetected(meeting) => DetectorEventView::MeetingDetected(meeting@),
            DetectorEvent::Notification { title, body } => DetectorEventView::Notification {
                title: title@,
                body: body@,
            },
            DetectorEvent::AutoStartRecording {
                meeting_name,
                app_name,
            } => DetectorEventView::AutoStartRecording {
                meeting_name: meeting_name@,
                app_name: app_name@,
            },
            DetectorEvent::MeetingEnded => DetectorEventView::MeetingEnded,
            DetectorEvent::AutoStopRecording => DetectorEventView::AutoStopRecording,
        }
    }
}

/// A list of events as plain values.
pub open spec fn events_view(events: Seq<DetectorEvent>) -> Seq<DetectorEventView> {
    events.map_values(|event: DetectorEvent| event@)
}

/// The name under which the host receives an event.
pub open spec fn event_name(event: DetectorEventView) -> Seq<char> {
    match event {
        DetectorEventView::MeetingDetected(_) => "meeting-detected"@,
        DetectorEventView::Notification { .. } => "meeting-detection-notification"@,
        DetectorEventView::AutoStartRecording { .. } => "auto-start-recording"@,
        DetectorEventView::MeetingEnded => "meeting-ended"@,
        DetectorEventView::AutoStopRecording => "auto-stop-recording"@,
    }
}

impl DetectorEvent {
    /// The name under which the host receives this event.
    pub fn name(&self) -> (name: &'static str)
        ensures
            name@ == event_name(self@),
    {
        match self {
            DetectorEvent::MeetingDetected(_) => "meeting-detected",
            DetectorEvent::Notification { .. } => "meeting-detection-notification",
            DetectorEvent::AutoStartRecording { .. } => "auto-start-recording",
            DetectorEvent::MeetingEnded => "meeting-ended",
            DetectorEvent::AutoStopRecording => "auto-stop-recording",
        }
    }
}

/// What the state machine remembers between two polls.
#[derive(Debug)]
pub struct MeetingTracker {
    /// A meeting is believed to be in progress.
    pub in_meeting: bool,
    /// The detection that began the meeting.
    pub current_meeting: Option<DetectedMeeting>,
    /// The detector itself asked for the recording that runs, and has not
    /// yet asked for its end.
    pub auto_recording_active: bool,
}

/// The state machine's memory as a plain value.
pub struct MeetingTrackerView {
    pub in_meeting: bool,
    pub current_meeting: Option<DetectedMeetingView>,
    pub auto_recording_active: bool,
}

impl View for MeetingTracker {
    type V = MeetingTrackerView;

    open spec fn view(&self) -> MeetingTrackerView {
        MeetingTrackerView {
            in_meeting: self.in_meeting,
            current_meeting: meeting_view(self.current_meeting),
            auto_recording_active: self.auto_recording_active,
        }
    }
}

/// The user notification for a meeting that started.
pub open spec fn notification_for(meeting: DetectedMeetingView) -> DetectorEventView {
    DetectorEventView::Notification {
        title: meeting.app_name + " Meeting Detected"@,
        body: "Click to start recording"@,
    }
}

/// The request to record a meeting that started.
pub open spec fn recording_request_for(meeting: DetectedMeetingView) -> DetectorEventView {
    DetectorEventView::AutoStartRecording {
        meeting_name: meeting.app_name + " Meeting"@,
        app_name: meeting.app_name,
    }
}

/// The events that announce the start of a meeting.
pub open spec fn start_events(
    settings: MeetingDetectionSettings,
    meeting: DetectedMeetingView,
) -> Seq<DetectorEventView> {
    let started = DetectorEventView::MeetingDetected(meeting);
    if settings.notify_on_detection && settings.auto_start_recording {
        seq![started, notification_for(meeting), recording_request_for(meeting)]
    } else if settings.notify_on_detection {
        seq![started, notification_for(meeting)]
    } else if settings.auto_start_recording {
        seq![started, recording_request_for(meeting)]
    } else {
        seq![started]
    }
}

/// The events that announce the end of a meeting. The recording is stopped
/// only if the detector started it.
pub open spec fn end_events(
    settings: MeetingDetectionSettings,
    auto_recording_active: bool,
) -> Seq<DetectorEventView> {
    if settings.auto_stop_recording && auto_recording_active {
        seq![DetectorEventView::MeetingEnded, DetectorEventView::AutoStopRecording]
    } else {
        seq![DetectorEventView::MeetingEnded]
    }
}

/// The events of one poll.
pub open spec fn emitted_events(
    tracker: MeetingTrackerView,
    settings: MeetingDetectionSettings,
    found: Option<DetectedMeetingView>,
) -> Seq<DetectorEventView> {
    if !tracker.in_meeting && found is Some {
        start_events(settings, found->Some_0)
    } else if tracker.in_meeting && found is None {
        end_events(settings, tracker.auto_recording_active)
    } else {
        Seq::empty()
    }
}

/// The state after one poll. A detection while a meeting is in progress
/// changes nothing, whichever application it names. The recording flag
/// belongs to one meeting: a start sets it to whether the detector asks for
/// a recording of this meeting, whatever it was before.
pub open spec fn next_tracker(
    tracker: MeetingTrackerView,
    settings: MeetingDetectionSettings,
    found: Option<DetectedMeetingView>,
) -> MeetingTrackerView {
    if !tracker.in_meeting && found is Some {
        MeetingTrackerView {
            in_meeting: true,
            current_meeting: found,
            auto_recording_active: settings.auto_start_recording,
        }
    } else if tracker.in_meeting && found is None {
        MeetingTrackerView {
            in_meeting: false,
            current_meeting: None,
            auto_recording_active: tracker.auto_recording_active && !settings.auto_stop_recording,
        }
    } else {
        tracker
    }
}

/// The state in which no meeting is believed to be in progress and nothing
/// is remembered.
pub open spec fn idle_tracker() -> MeetingTrackerView {
    MeetingTrackerView { in_meeting: false, current_meeting: None, auto_recording_active: false }
}

/// The events of a start: "meeting detected" first, with this detection,
/// and after it neither a second start nor an end.
pub open spec fn announces_start(events: Seq<DetectorEventView>, meeting: DetectedMeetingView) -> bool {
    &&& events.len() >= 1
    &&& events[0] == DetectorEventView::MeetingDetected(meeting)
    &&& forall|i: int|
        1 <= i < events.len() ==> !(#[trigger] events[i] is MeetingDetected) && !(events[i] is MeetingEnded)
}

/// The events of an end: "meeting ended" first, and after it neither a
/// start nor a second end.
pub open spec fn announces_end(events: Seq<DetectorEventView>) -> bool {
    &&& events.len() >= 1
    &&& events[0] == DetectorEventView::MeetingEnded
    &&& forall|i: int|
        1 <= i < events.len() ==> !(#[trigger] events[i] is MeetingDetected) && !(events[i] is MeetingEnded)
}

/// No event asks for a recording to stop.
pub open spec fn asks_no_stop(events: Seq<DetectorEventView>) -> bool {
    forall|i: int| 0 <= i < events.len() ==> !(#[trigger] events[i] is AutoStopRecording)
}

impl MeetingTracker {
    /// While a meeting is believed to be in progress, its detection is kept.
    pub open spec fn well_formed(&self) -> bool {
        self.in_meeting ==> self.current_meeting is Some
    }

    /// The initial state: no meeting.
    pub fn new() -> (tracker: Self)
        ensures
            tracker@ == idle_tracker(),
            tracker.well_formed(),
    {
        MeetingTracker { in_meeting: false, current_meeting: None, auto_recording_active: false }
    }

    /// Takes the result of one poll, moves to the next state and returns the
    /// events for the host, in the order in which they are to be sent.
    pub fn observe(&mut self, settings: &MeetingDetectionSettings, found: Option<DetectedMeeting>) -> (events: Vec<DetectorEvent>)
        requires
            old(self).well_formed(),
        ensures
            final(self).well_formed(),
            final(self)@ == next_tracker(old(self)@, *settings, meeting_view(found)),
            events_view(events@) == emitted_events(old(self)@, *settings, meeting_view(found)),
    {
        let mut events: Vec<DetectorEvent> = Vec::new();
        match found {
            Some(meeting) => {
                if !self.in_meeting {
                    events.push(DetectorEvent::MeetingDetected(meeting.clone()));
                    if settings.notify_on_detection {
                        events.push(
                            DetectorEvent::Notification {
                                title: meeting.app_name.clone().concat(" Meeting Detected"),
                                body: String::from_str("Click to start recording"),
                            },
                        );
                    }
                    if settings.auto_start_recording {
                        events.push(
                            DetectorEvent::AutoStartRecording {
                                meeting_name: meeting.app_name.clone().concat(" Meeting"),
                                app_name: meeting.app_name.clone(),
                            },
                        );
                    }
                    self.auto_recording_active = settings.auto_start_recording;
                    self.current_meeting = Some(meeting);
                    self.in_meeting = true;
                }
            },
            None => {
                if self.in_meeting {
                    self.current_meeting = None;
                    events.push(DetectorEvent::MeetingEnded);
                    if settings.auto_stop_recording && self.auto_recording_active {
                        events.push(DetectorEvent::AutoStopRecording);
                        self.auto_recording_active = false;
                    }
                    self.in_meeting = false;
                }
            },
        }
        assert(events_view(events@) =~= emitted_events(old(self)@, *settings, meeting_view(found)));
        events
    }
}

/// From the idle state, a detection, then none, then a detection give a
/// start, an end and a start again, one each, whatever the settings at each
/// poll.
pub proof fn lemma_start_end_start(
    first: DetectedMeetingView,
    second: DetectedMeetingView,
    at_first: MeetingDetectionSettings,
    at_gap: MeetingDetectionSettings,
    at_second: MeetingDetectionSettings,
)
    ensures
        ({
            let idle = idle_tracker();
            let met = next_tracker(idle, at_first, Some(first));
            let left = next_tracker(met, at_gap, None);
            let again = next_tracker(left, at_second, Some(second));
            &&& announces_start(emitted_events(idle, at_first, Some(first)), first)
            &&& met.in_meeting && met.current_meeting == Some(first)
            &&& announces_end(emitted_events(met, at_gap, None))
            &&& !left.in_meeting && left.current_meeting is None
            &&& announces_start(emitted_events(left, at_second, Some(second)), second)
            &&& again.in_meeting && again.current_meeting == Some(second)
        }),
{
}

/// While a meeting is in progress, a poll that detects a meeting sends
/// nothing and changes nothing, also where it names another application:
/// the detection that began the meeting stays.
pub proof fn lemma_no_flap(
    tracker: MeetingTrackerView,
    settings: MeetingDetectionSettings,
    found: DetectedMeetingView,
)
    requires
        tracker.in_meeting,
    ensures
        emitted_events(tracker, settings, Some(found)).len() == 0,
        next_tracker(tracker, settings, Some(found)) == tracker,
{
}

/// While no meeting is in progress, a poll that detects none sends nothing
/// and changes nothing.
pub proof fn lemma_idle_stays_idle(tracker: MeetingTrackerView, settings: MeetingDetectionSettings)
    requires
        !tracker.in_meeting,
    ensures
        emitted_events(tracker, settings, None).len() == 0,
        next_tracker(tracker, settings, None) == tracker,
{
}

/// A poll asks for the recording to stop only at the end of a meeting, with
/// automatic stopping on, and if the detector started the recording.
pub proof fn lemma_stop_needs_auto_start(
    tracker: MeetingTrackerView,
    settings: MeetingDetectionSettings,
    found: Option<DetectedMeetingView>,
)
    ensures
        !asks_no_stop(emitted_events(tracker, settings, found)) <==> (tracker.in_meeting
            && found is None && settings.auto_stop_recording && tracker.auto_recording_active),
{
    let events = emitted_events(tracker, settings, found);
    if tracker.in_meeting && found is None && settings.auto_stop_recording
        && tracker.auto_recording_active {
        assert(events[1] is AutoStopRecording);
    }
}

/// A meeting that began without a recording request from the detector ends
/// without a request to stop one, also with automatic stopping on, and
/// whatever an earlier meeting left behind.
pub proof fn lemma_manual_recording_not_stopped(
    before: MeetingTrackerView,
    found: DetectedMeetingView,
    at_start: MeetingDetectionSettings,
    at_end: MeetingDetectionSettings,
)
    requires
        !before.in_meeting,
        !at_start.auto_start_recording,
    ensures
        asks_no_stop(emitted_events(before, at_start, Some(found))),
        asks_no_stop(
            emitted_events(next_tracker(before, at_start, Some(found)), at_end, None),
        ),
        !next_tracker(
            next_tracker(before, at_start, Some(found)),
            at_end,
            None,
        ).auto_recording_active,
{
}

/// The end of a meeting asks for the recording to stop exactly when the
/// start of that same meeting asked for a recording and automatic stopping
/// is on at the end. Nothing that went before the meeting matters, and
/// polls that detect a meeting while it lasts change nothing.
pub proof fn lemma_stop_follows_start_of_same_meeting(
    before: MeetingTrackerView,
    found: DetectedMeetingView,
    seen_again: DetectedMeetingView,
    at_start: MeetingDetectionSettings,
    meanwhile: MeetingDetectionSettings,
    at_end: MeetingDetectionSettings,
)
    requires
        !before.in_meeting,
    ensures
        ({
            let started = next_tracker(before, at_start, Some(found));
            let lasting = next_tracker(started, meanwhile, Some(seen_again));
            &&& lasting == started
            &&& !asks_no_stop(emitted_events(lasting, at_end, None)) <==> (
            at_start.auto_start_recording && at_end.auto_stop_recording)
        }),
{
    let started = next_tracker(before, at_start, Some(found));
    let events = emitted_events(started, at_end, None);
    if at_start.auto_start_recording && at_end.auto_stop_recording {
        assert(events[1] is AutoStopRecording);
    }
}

} // verus!
