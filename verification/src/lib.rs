//! Detection of video-conferencing meetings from the names of the running
//! processes: the per-application matchers, the meeting state machine, one
//! iteration of the monitoring loop, the detector's settings and the control
//! operations of the detector.

pub mod text;
pub mod meeting_apps;
pub mod settings;
pub mod detection;
pub mod tracker;
pub mod detector;
pub mod commands;
