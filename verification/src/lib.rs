//! A safety and lifecycle layer between plugin code and a digital-audio-workstation host.
//!
//! The host owns every object (projects, tracks, PCM sources) and may move or free it at
//! any time. This crate never holds host memory. It works on a [`reaper::Reaper`] value,
//! which records what the host answers at one point in time, and hands back
//! [`request::HostRequest`] values for whatever has to be done on the host's side.

pub mod action;
pub mod audio_hook;
pub mod automation_mode;
pub mod error;
pub mod event_bus;
pub mod flags;
pub mod fx;
pub mod guid;
pub mod host;
pub mod integration_test;
pub mod low_level;
pub mod midi_device;
pub mod misc_enums;
pub mod project;
pub mod reaper;
pub mod recording_input;
pub mod request;
pub mod search;
pub mod source;
pub mod task_queue;
pub mod track;
pub mod track_send;
pub mod validator;
