//! Numeric constants of the VST3 ABI that the host logic decides on.

use vstd::prelude::*;

verus! {

/// `tresult` returned when a call succeeded.
pub const K_RESULT_OK: i32 = 0;
/// `tresult` meaning "true"; shares its value with [`K_RESULT_OK`].
pub const K_RESULT_TRUE: i32 = 0;
/// `tresult` meaning "false" (a non-error negative answer).
pub const K_RESULT_FALSE: i32 = 1;
/// `tresult` for a call whose arguments were rejected.
pub const K_INVALID_ARGUMENT: i32 = 2;
/// `tresult` for an interface method the object does not implement.
pub const K_NOT_IMPLEMENTED: i32 = 3;
/// `tresult` for an internal failure.
pub const K_INTERNAL_ERROR: i32 = 4;
/// `tresult` for a call made before initialization.
pub const K_NOT_INITIALIZED: i32 = 5;
/// `tresult` for an allocation failure.
pub const K_OUT_OF_MEMORY: i32 = 6;

/// `SymbolicSampleSizes::kSample32`.
pub const K_SAMPLE_32: i32 = 0;
/// `SymbolicSampleSizes::kSample64`.
pub const K_SAMPLE_64: i32 = 1;

/// `ProcessModes::kRealtime`.
pub const K_REALTIME: i32 = 0;
/// `ProcessModes::kPrefetch`.
pub const K_PREFETCH: i32 = 1;
/// `ProcessModes::kOffline`.
pub const K_OFFLINE: i32 = 2;

/// `MediaTypes::kAudio`.
pub const K_AUDIO: i32 = 0;
/// `MediaTypes::kEvent`.
pub const K_EVENT: i32 = 1;

/// `BusDirections::kInput`.
pub const K_INPUT: i32 = 0;
/// `BusDirections::kOutput`.
pub const K_OUTPUT: i32 = 1;

/// Event type tag of a note-on event.
pub const K_NOTE_ON_EVENT: u16 = 0;
/// Event type tag of a note-off event.
pub const K_NOTE_OFF_EVENT: u16 = 1;
/// Event type tag of a generic data event (MIDI CC, pitch bend, ...).
pub const K_DATA_EVENT: u16 = 2;
/// Event type tag of a polyphonic-pressure event.
pub const K_POLY_PRESSURE_EVENT: u16 = 3;
/// Event type tag of a note-expression value event.
pub const K_NOTE_EXPRESSION_VALUE_EVENT: u16 = 4;
/// Event type tag of a note-expression text event.
pub const K_NOTE_EXPRESSION_TEXT_EVENT: u16 = 5;
/// Event type tag of a chord event.
pub const K_CHORD_EVENT: u16 = 6;
/// Event type tag of a scale event.
pub const K_SCALE_EVENT: u16 = 7;
/// Event type tag of a legacy MIDI CC output event.
pub const K_LEGACY_MIDI_CC_OUT_EVENT: u16 = 65535;

/// `ProcessContext` state bit: transport is playing.
pub const K_PLAYING: u32 = 2;
/// `ProcessContext` state bit: cycle is active.
pub const K_CYCLE_ACTIVE: u32 = 4;
/// `ProcessContext` state bit: transport is recording.
pub const K_RECORDING: u32 = 8;
/// `ProcessContext` validity bit for `systemTime`.
pub const K_SYSTEM_TIME_VALID: u32 = 256;
/// `ProcessContext` validity bit for `projectTimeMusic`.
pub const K_PROJECT_TIME_MUSIC_VALID: u32 = 512;
/// `ProcessContext` validity bit for `tempo`.
pub const K_TEMPO_VALID: u32 = 1024;
/// `ProcessContext` validity bit for `barPositionMusic`.
pub const K_BAR_POSITION_VALID: u32 = 2048;
/// `ProcessContext` validity bit for the cycle range.
pub const K_CYCLE_VALID: u32 = 4096;
/// `ProcessContext` validity bit for the time signature.
pub const K_TIME_SIG_VALID: u32 = 8192;
/// `ProcessContext` validity bit for the SMPTE offset.
pub const K_SMPTE_VALID: u32 = 16384;
/// `ProcessContext` validity bit for `samplesToNextClock`.
pub const K_CLOCK_VALID: u32 = 32768;
/// `ProcessContext` validity bit for `continousTimeSamples`.
pub const K_CONT_TIME_VALID: u32 = 131072;
/// `ProcessContext` validity bit for the chord.
pub const K_CHORD_VALID: u32 = 262144;

/// Note-expression type id: volume.
pub const K_VOLUME_TYPE_ID: u32 = 0;
/// Note-expression type id: pan.
pub const K_PAN_TYPE_ID: u32 = 1;
/// Note-expression type id: tuning.
pub const K_TUNING_TYPE_ID: u32 = 2;
/// Note-expression type id: vibrato.
pub const K_VIBRATO_TYPE_ID: u32 = 3;
/// Note-expression type id: brightness.
pub const K_BRIGHTNESS_TYPE_ID: u32 = 4;

/// Restart flag: reload the component.
pub const K_RELOAD_COMPONENT: i32 = 1;
/// Restart flag: bus configuration changed.
pub const K_IO_CHANGED: i32 = 2;
/// Restart flag: parameter values changed.
pub const K_PARAM_VALUES_CHANGED: i32 = 4;
/// Restart flag: latency changed.
pub const K_LATENCY_CHANGED: i32 = 8;
/// Restart flag: parameter titles changed.
pub const K_PARAM_TITLES_CHANGED: i32 = 16;
/// Restart flag: MIDI CC assignment changed.
pub const K_MIDI_CC_ASSIGNMENT_CHANGED: i32 = 32;
/// Restart flag: note expressions changed.
pub const K_NOTE_EXPRESSION_CHANGED: i32 = 64;
/// Restart flag: bus titles changed.
pub const K_IO_TITLES_CHANGED: i32 = 128;
/// Restart flag: prefetchable support changed.
pub const K_PREFETCHABLE_SUPPORT_CHANGED: i32 = 256;
/// Restart flag: routing info changed.
pub const K_ROUTING_INFO_CHANGED: i32 = 512;
/// Restart flag: key switches changed.
pub const K_KEYSWITCHES_CHANGED: i32 = 1024;

/// `IBStream` seek mode: from the start.
pub const K_IB_SEEK_SET: i32 = 0;
/// `IBStream` seek mode: from the current position.
pub const K_IB_SEEK_CUR: i32 = 1;
/// `IBStream` seek mode: from the end.
pub const K_IB_SEEK_END: i32 = 2;

/// Progress type: asynchronous state restoration.
pub const K_PROGRESS_ASYNC_STATE_RESTORATION: u32 = 0;
/// Progress type: background task of the plugin UI.
pub const K_PROGRESS_UI_BACKGROUND_TASK: u32 = 1;

/// Knob mode: circular.
pub const K_KNOB_CIRCULAR_MODE: i32 = 0;
/// Knob mode: relative circular.
pub const K_KNOB_RELATIVE_CIRCULAR_MODE: i32 = 1;
/// Knob mode: linear.
pub const K_KNOB_LINEAR_MODE: i32 = 2;

} // verus!
