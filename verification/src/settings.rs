//! The detector's settings, their defaults, and what loading and saving
//! them decide.

use vstd::prelude::*;
use vstd::string::StringExecFns;

verus! {

/// How the detector behaves. A value is replaced whole, never changed in
/// part.
#[derive(Debug, Clone, Copy, PartialEq, Eq, Structural)]
pub struct MeetingDetectionSettings {
    /// The master switch.
    pub enabled: bool,
    /// Ask for a recording when a meeting starts.
    pub auto_start_recording: bool,
    /// Ask for the end of a recording that the detector started, when the
    /// meeting ends.
    pub auto_stop_recording: bool,
    /// Look for Zoom meetings.
    pub detect_zoom: bool,
    /// Look for Microsoft Teams meetings.
    pub detect_teams: bool,
    /// Look for Google Meet meetings.
    pub detect_google_meet: bool,
    /// Ask for a user notification when a meeting starts.
    pub notify_on_detection: bool,
    /// Seconds between two polls, more than zero.
    pub poll_interval_secs: u64,
}

/// The settings of a detector that was never configured: switched off, for
/// privacy.
pub open spec fn default_settings() -> MeetingDetectionSettings {
    MeetingDetectionSettings {
        enabled: false,
        auto_start_recording: false,
        auto_stop_recording: true,
        detect_zoom: true,
        detect_teams: true,
        detect_google_meet: true,
        notify_on_detection: true,
        poll_interval_secs: 5,
    }
}

/// What was found where the settings are kept.
#[derive(Debug, Clone, Copy, PartialEq, Eq, Structural)]
pub enum StoredSettings {
    /// No place for the settings could be determined.
    NoPath,
    /// There is no settings file.
    Missing,
    /// The file could not be read.
    Unreadable,
    /// The file does not hold a settings record.
    Malformed,
    /// The record that the file holds.
    Parsed(MeetingDetectionSettings),
}

/// The settings that a detector starts with, given what was found.
pub open spec fn loaded_settings(stored: StoredSettings) -> MeetingDetectionSettings {
    match stored {
        StoredSettings::Parsed(settings) if settings.is_valid() => settings,
        _ => default_settings(),
    }
}

/// Why the settings could not be saved.
#[derive(Debug)]
pub enum SaveFailure {
    /// No place for the settings could be determined.
    NoPath,
    /// The directory could not be created; with the cause.
    CreateDirectory(String),
    /// The settings could not be encoded; with the cause.
    Serialize(String),
    /// The file could not be written; with the cause.
    Write(String),
}

/// The text that describes a failure to save.
pub open spec fn save_failure_text(failure: SaveFailure) -> Seq<char> {
    match failure {
        SaveFailure::NoPath => "Could not determine settings path"@,
        SaveFailure::CreateDirectory(cause) => "Failed to create settings directory: "@ + cause@,
        SaveFailure::Serialize(cause) => "Failed to serialize settings: "@ + cause@,
        SaveFailure::Write(cause) => "Failed to write settings: "@ + cause@,
    }
}

impl SaveFailure {
    /// The description that the caller of a save receives.
    pub fn message(&self) -> (text: String)
        ensures
            text@ == save_failure_text(*self),
    {
        match self {
            SaveFailure::NoPath => String::from_str("Could not determine settings path"),
            SaveFailure::CreateDirectory(cause) => String::from_str(
                "Failed to create settings directory: ",
            ).concat(cause.as_str()),
            SaveFailure::Serialize(cause) => String::from_str(
                "Failed to serialize settings: ",
            ).concat(cause.as_str()),
            SaveFailure::Write(cause) => String::from_str("Failed to write settings: ").concat(
                cause.as_str(),
            ),
        }
    }
}

impl Default for MeetingDetectionSettings {
    fn default() -> (settings: Self)
        ensures
            settings == default_settings(),
    {
        MeetingDetectionSettings {
            enabled: false,
            auto_start_recording: false,
            auto_stop_recording: true,
            detect_zoom: true,
            detect_teams: true,
            detect_google_meet: true,
            notify_on_detection: true,
            poll_interval_secs: 5,
        }
    }
}

impl MeetingDetectionSettings {
    /// The poll interval is positive, so that a loop that sleeps for it
    /// between polls never spins.
    pub open spec fn is_valid(&self) -> bool {
        self.poll_interval_secs > 0
    }

    /// The settings that a detector starts with. Never fails: unless a valid
    /// record was found, the defaults are returned.
    pub fn load(stored: StoredSettings) -> (settings: Self)
        ensures
            settings == loaded_settings(stored),
            settings.is_valid(),
    {
        match stored {
            StoredSettings::Parsed(found) => {
                if found.poll_interval_secs > 0 {
                    found
                } else {
                    MeetingDetectionSettings::default()
                }
            },
            _ => MeetingDetectionSettings::default(),
        }
    }

    /// What the caller of a save receives, given how the write went.
    pub fn save(&self, written: Result<(), SaveFailure>) -> (outcome: Result<(), String>)
        ensures
            written is Ok ==> outcome is Ok,
            written is Err ==> outcome is Err && outcome->Err_0@ == save_failure_text(
                written->Err_0,
            ),
    {
        match written {
            Ok(()) => Ok(()),
            Err(failure) => Err(failure.message()),
        }
    }
}

/// Loading where a valid record was found gives that record, field for
/// field.
pub proof fn lemma_load_keeps_valid_record(settings: MeetingDetectionSettings)
    requires
        settings.is_valid(),
    ensures
        loaded_settings(StoredSettings::Parsed(settings)) == settings,
{
}

/// Loading where there is no record, or none that can be read, gives the
/// defaults.
pub proof fn lemma_load_defaults(stored: StoredSettings)
    requires
        !(stored is Parsed),
    ensures
        loaded_settings(stored) == default_settings(),
        default_settings().is_valid(),
        !default_settings().enabled,
{
}

} // verus!
