//! Host transport snapshot passed to the plugin with every process call.
//!
//! Tempo, musical positions and the sample rate are `f64` quantities; they
//! are carried here as the bit patterns of those `f64` values and handed to
//! the plugin unchanged.

use vstd::prelude::*;

use crate::constants::{
    K_BAR_POSITION_VALID, K_CYCLE_ACTIVE, K_CYCLE_VALID, K_PLAYING, K_PROJECT_TIME_MUSIC_VALID,
    K_RECORDING, K_TEMPO_VALID, K_TIME_SIG_VALID,
};

verus! {

/// Bits of the `f64` 120.0 (the default tempo in BPM).
pub const DEFAULT_TEMPO_BITS: u64 = 0x405E_0000_0000_0000;

/// Bits of the `f64` 44100.0 (the default sample rate in Hz).
pub const DEFAULT_SAMPLE_RATE_BITS: u64 = 0x40E5_8880_0000_0000;

/// Host transport snapshot. Musical positions are in quarter notes.
#[derive(Debug, Clone, Copy, PartialEq, Eq, Structural)]
pub struct TransportState {
    /// True if the transport is playing.
    pub playing: bool,
    /// True if the transport is recording.
    pub recording: bool,
    /// True if the loop / cycle region is active.
    pub cycle_active: bool,
    /// Bits of the tempo in BPM.
    pub tempo_bits: u64,
    /// Time-signature numerator (top number).
    pub time_sig_numerator: i32,
    /// Time-signature denominator (bottom number).
    pub time_sig_denominator: i32,
    /// Project time in samples.
    pub position_samples: i64,
    /// Bits of the project position in quarter notes.
    pub position_beats_bits: u64,
    /// Bits of the position of the current bar in quarter notes.
    pub bar_position_beats_bits: u64,
    /// Bits of the cycle start in quarter notes.
    pub cycle_start_beats_bits: u64,
    /// Bits of the cycle end in quarter notes.
    pub cycle_end_beats_bits: u64,
    /// Bits of the sample rate in Hz.
    pub sample_rate_bits: u64,
}

/// The fields of the SDK's `ProcessContext` that the host fills; every other
/// field of that struct is zero.
#[derive(Debug, Clone, Copy, PartialEq, Eq, Structural)]
pub struct ProcessContextFields {
    pub state: u32,
    pub sample_rate_bits: u64,
    pub project_time_samples: i64,
    pub system_time: i64,
    pub continuous_time_samples: i64,
    pub project_time_music_bits: u64,
    pub bar_position_music_bits: u64,
    pub cycle_start_music_bits: u64,
    pub cycle_end_music_bits: u64,
    pub tempo_bits: u64,
    pub time_sig_numerator: i32,
    pub time_sig_denominator: i32,
    pub smpte_offset_subframes: i32,
    pub samples_to_next_clock: i32,
}

impl Default for ProcessContextFields {
    /// A context with no valid optional field: state 0, 44.1 kHz, 120 BPM,
    /// 4/4, every position at zero.
    fn default() -> (c: ProcessContextFields)
        ensures
            c == (ProcessContextFields {
                state: 0,
                sample_rate_bits: DEFAULT_SAMPLE_RATE_BITS,
                project_time_samples: 0,
                system_time: 0,
                continuous_time_samples: 0,
                project_time_music_bits: 0,
                bar_position_music_bits: 0,
                cycle_start_music_bits: 0,
                cycle_end_music_bits: 0,
                tempo_bits: DEFAULT_TEMPO_BITS,
                time_sig_numerator: 4,
                time_sig_denominator: 4,
                smpte_offset_subframes: 0,
                samples_to_next_clock: 0,
            }),
    {
        ProcessContextFields {
            state: 0,
            sample_rate_bits: DEFAULT_SAMPLE_RATE_BITS,
            project_time_samples: 0,
            system_time: 0,
            continuous_time_samples: 0,
            project_time_music_bits: 0,
            bar_position_music_bits: 0,
            cycle_start_music_bits: 0,
            cycle_end_music_bits: 0,
            tempo_bits: DEFAULT_TEMPO_BITS,
            time_sig_numerator: 4,
            time_sig_denominator: 4,
            smpte_offset_subframes: 0,
            samples_to_next_clock: 0,
        }
    }
}

/// The validity flags the host always sets: project time in music, bar
/// position, tempo and time signature.
pub open spec fn always_valid_flags() -> u32 {
    K_PROJECT_TIME_MUSIC_VALID | K_BAR_POSITION_VALID | K_TEMPO_VALID | K_TIME_SIG_VALID
}

/// The `ProcessContext::state` word for a transport: playing, recording and
/// cycle-active bits as set (an active cycle also marks the cycle valid), plus
/// the flags that are always valid.
pub open spec fn transport_state_bits(playing: bool, recording: bool, cycle_active: bool) -> u32 {
    (if playing {
        K_PLAYING
    } else {
        0u32
    }) | (if recording {
        K_RECORDING
    } else {
        0u32
    }) | (if cycle_active {
        K_CYCLE_ACTIVE | K_CYCLE_VALID
    } else {
        0u32
    }) | always_valid_flags()
}

/// The context the host passes for a transport.
pub open spec fn process_context_of(t: TransportState) -> ProcessContextFields {
    ProcessContextFields {
        state: transport_state_bits(t.playing, t.recording, t.cycle_active),
        sample_rate_bits: t.sample_rate_bits,
        project_time_samples: t.position_samples,
        system_time: 0,
        continuous_time_samples: t.position_samples,
        project_time_music_bits: t.position_beats_bits,
        bar_position_music_bits: t.bar_position_beats_bits,
        cycle_start_music_bits: t.cycle_start_beats_bits,
        cycle_end_music_bits: t.cycle_end_beats_bits,
        tempo_bits: t.tempo_bits,
        time_sig_numerator: t.time_sig_numerator,
        time_sig_denominator: t.time_sig_denominator,
        smpte_offset_subframes: 0,
        samples_to_next_clock: 0,
    }
}

/// The state word reports exactly the flags it was built from: the playing,
/// recording and cycle bits read back as given, the cycle is valid exactly
/// when it is active, and the always-valid flags are set.
pub proof fn lemma_state_bits_read_back(playing: bool, recording: bool, cycle_active: bool)
    ensures
        ({
            let s = transport_state_bits(playing, recording, cycle_active);
            &&& (s & K_PLAYING != 0) == playing
            &&& (s & K_RECORDING != 0) == recording
            &&& (s & K_CYCLE_ACTIVE != 0) == cycle_active
            &&& (s & K_CYCLE_VALID != 0) == cycle_active
            &&& s & always_valid_flags() == always_valid_flags()
        }),
{
    assert(K_CYCLE_ACTIVE | K_CYCLE_VALID == 4100u32) by (bit_vector);
    assert(always_valid_flags() == 11776u32) by (bit_vector);
    let p: u32 = if playing { 2 } else { 0 };
    let r: u32 = if recording { 8 } else { 0 };
    let c: u32 = if cycle_active { 4100 } else { 0 };
    let s = p | r | c | 11776u32;
    assert(s == transport_state_bits(playing, recording, cycle_active));
    assert((s & 2 != 0) == (p == 2) && (s & 8 != 0) == (r == 8) && (s & 4 != 0) == (c == 4100) && (
    s & 4096 != 0) == (c == 4100) && s & 11776u32 == 11776u32) by (bit_vector)
        requires
            p == 2 || p == 0,
            r == 8 || r == 0,
            c == 4100 || c == 0,
            s == p | r | c | 11776u32,
    ;
}

/// What the plugin is told of a transport: its time signature, tempo,
/// sample rate, positions and cycle are passed through unchanged (the
/// position in samples serves as both project and continuous time); the
/// state word reads back the playing, recording and cycle flags as given,
/// with the cycle valid exactly when it is active and the always-valid
/// flags set; the system time, SMPTE offset and next-clock distance are
/// zero.
pub proof fn lemma_context_reports_transport(t: TransportState)
    ensures
        ({
            let c = process_context_of(t);
            &&& c.time_sig_numerator == t.time_sig_numerator
            &&& c.time_sig_denominator == t.time_sig_denominator
            &&& c.tempo_bits == t.tempo_bits
            &&& c.sample_rate_bits == t.sample_rate_bits
            &&& c.project_time_samples == t.position_samples
            &&& c.continuous_time_samples == t.position_samples
            &&& c.project_time_music_bits == t.position_beats_bits
            &&& c.bar_position_music_bits == t.bar_position_beats_bits
            &&& c.cycle_start_music_bits == t.cycle_start_beats_bits
            &&& c.cycle_end_music_bits == t.cycle_end_beats_bits
            &&& c.system_time == 0
            &&& c.smpte_offset_subframes == 0
            &&& c.samples_to_next_clock == 0
            &&& (c.state & K_PLAYING != 0) == t.playing
            &&& (c.state & K_RECORDING != 0) == t.recording
            &&& (c.state & K_CYCLE_ACTIVE != 0) == t.cycle_active
            &&& (c.state & K_CYCLE_VALID != 0) == t.cycle_active
            &&& c.state & always_valid_flags() == always_valid_flags()
        }),
{
    lemma_state_bits_read_back(t.playing, t.recording, t.cycle_active);
}

impl Default for TransportState {
    /// A stopped transport at 120 BPM, 4/4, at the project start, 44.1 kHz.
    fn default() -> (t: TransportState)
        ensures
            t == TransportState::default_spec(),
    {
        TransportState {
            playing: false,
            recording: false,
            cycle_active: false,
            tempo_bits: DEFAULT_TEMPO_BITS,
            time_sig_numerator: 4,
            time_sig_denominator: 4,
            position_samples: 0,
            position_beats_bits: 0,
            bar_position_beats_bits: 0,
            cycle_start_beats_bits: 0,
            cycle_end_beats_bits: 0,
            sample_rate_bits: DEFAULT_SAMPLE_RATE_BITS,
        }
    }
}

impl TransportState {
    /// A stopped transport at 120 BPM, 4/4, at the project start, 44.1 kHz.
    pub open spec fn default_spec() -> TransportState {
        TransportState {
            playing: false,
            recording: false,
            cycle_active: false,
            tempo_bits: DEFAULT_TEMPO_BITS,
            time_sig_numerator: 4,
            time_sig_denominator: 4,
            position_samples: 0,
            position_beats_bits: 0,
            bar_position_beats_bits: 0,
            cycle_start_beats_bits: 0,
            cycle_end_beats_bits: 0,
            sample_rate_bits: DEFAULT_SAMPLE_RATE_BITS,
        }
    }

    /// A stopped transport at 120 BPM, 4/4, at the project start, 44.1 kHz.
    pub fn new() -> (t: TransportState)
        ensures
            t == TransportState::default_spec(),
    {
        TransportState::default()
    }

    /// The same transport, playing or not.
    pub fn playing(self, playing: bool) -> (t: TransportState)
        ensures
            t == (TransportState { playing, ..self }),
    {
        TransportState { playing, ..self }
    }

    /// The same transport, recording or not.
    pub fn recording(self, recording: bool) -> (t: TransportState)
        ensures
            t == (TransportState { recording, ..self }),
    {
        TransportState { recording, ..self }
    }

    /// The same transport with the cycle active or not.
    pub fn cycle_active(self, active: bool) -> (t: TransportState)
        ensures
            t == (TransportState { cycle_active: active, ..self }),
    {
        TransportState { cycle_active: active, ..self }
    }

    /// The same transport at the tempo whose `f64` BPM has these bits.
    pub fn tempo(self, bpm_bits: u64) -> (t: TransportState)
        ensures
            t == (TransportState { tempo_bits: bpm_bits, ..self }),
    {
        TransportState { tempo_bits: bpm_bits, ..self }
    }

    /// The same transport in `numerator`/`denominator` time.
    pub fn time_signature(self, numerator: i32, denominator: i32) -> (t: TransportState)
        ensures
            t == (TransportState {
                time_sig_numerator: numerator,
                time_sig_denominator: denominator,
                ..self
            }),
    {
        TransportState { time_sig_numerator: numerator, time_sig_denominator: denominator, ..self }
    }

    /// The same transport at a position in samples.
    pub fn position_samples(self, samples: i64) -> (t: TransportState)
        ensures
            t == (TransportState { position_samples: samples, ..self }),
    {
        TransportState { position_samples: samples, ..self }
    }

    /// The same transport at a position in quarter notes (bits of the `f64`).
    pub fn position_beats(self, beats_bits: u64) -> (t: TransportState)
        ensures
            t == (TransportState { position_beats_bits: beats_bits, ..self }),
    {
        TransportState { position_beats_bits: beats_bits, ..self }
    }

    /// The same transport with the current bar at a position in quarter
    /// notes (bits of the `f64`).
    pub fn bar_position_beats(self, beats_bits: u64) -> (t: TransportState)
        ensures
            t == (TransportState { bar_position_beats_bits: beats_bits, ..self }),
    {
        TransportState { bar_position_beats_bits: beats_bits, ..self }
    }

    /// The same transport with the cycle between two positions in quarter
    /// notes (bits of the `f64` values).
    pub fn cycle_range(self, start_bits: u64, end_bits: u64) -> (t: TransportState)
        ensures
            t == (TransportState {
                cycle_start_beats_bits: start_bits,
                cycle_end_beats_bits: end_bits,
                ..self
            }),
    {
        TransportState { cycle_start_beats_bits: start_bits, cycle_end_beats_bits: end_bits, ..self }
    }

    /// The same transport at a sample rate in Hz (bits of the `f64`).
    pub fn sample_rate(self, rate_bits: u64) -> (t: TransportState)
        ensures
            t == (TransportState { sample_rate_bits: rate_bits, ..self }),
    {
        TransportState { sample_rate_bits: rate_bits, ..self }
    }

    /// The `ProcessContext` for this transport, with the state bits and the
    /// validity flags VST3 plugins expect.
    pub fn to_process_context(&self) -> (c: ProcessContextFields)
        ensures
            c == process_context_of(*self),
            c.time_sig_numerator == self.time_sig_numerator,
            c.time_sig_denominator == self.time_sig_denominator,
            c.tempo_bits == self.tempo_bits,
            c.sample_rate_bits == self.sample_rate_bits,
            c.project_time_samples == self.position_samples,
            c.continuous_time_samples == self.position_samples,
            c.project_time_music_bits == self.position_beats_bits,
            c.bar_position_music_bits == self.bar_position_beats_bits,
            c.cycle_start_music_bits == self.cycle_start_beats_bits,
            c.cycle_end_music_bits == self.cycle_end_beats_bits,
    {
        let mut state: u32 = 0;
        if self.playing {
            state = state | K_PLAYING;
        }
        if self.recording {
            state = state | K_RECORDING;
        }
        if self.cycle_active {
            state = state | (K_CYCLE_ACTIVE | K_CYCLE_VALID);
        }
        state = state | (K_PROJECT_TIME_MUSIC_VALID | K_BAR_POSITION_VALID | K_TEMPO_VALID
            | K_TIME_SIG_VALID);
        proof {
            assert(K_CYCLE_ACTIVE | K_CYCLE_VALID == 4100u32) by (bit_vector);
            assert(always_valid_flags() == 11776u32) by (bit_vector);
            assert(K_PROJECT_TIME_MUSIC_VALID | K_BAR_POSITION_VALID | K_TEMPO_VALID
                | K_TIME_SIG_VALID == 11776u32) by (bit_vector);
            let p: u32 = if self.playing { 2 } else { 0 };
            let r: u32 = if self.recording { 8 } else { 0 };
            let c: u32 = if self.cycle_active { 4100 } else { 0 };
            assert(state == p | r | c | 11776u32) by {
                assert(forall|x: u32| #![auto] 0u32 | x == x) by (bit_vector);
                assert(forall|x: u32| #![auto] x | 0u32 == x) by (bit_vector);
            }
        }
        ProcessContextFields {
            state,
            sample_rate_bits: self.sample_rate_bits,
            project_time_samples: self.position_samples,
            system_time: 0,
            continuous_time_samples: self.position_samples,
            project_time_music_bits: self.position_beats_bits,
            bar_position_music_bits: self.bar_position_beats_bits,
            cycle_start_music_bits: self.cycle_start_beats_bits,
            cycle_end_music_bits: self.cycle_end_beats_bits,
            tempo_bits: self.tempo_bits,
            time_sig_numerator: self.time_sig_numerator,
            time_sig_denominator: self.time_sig_denominator,
            smpte_offset_subframes: 0,
            samples_to_next_clock: 0,
        }
    }
}

} // verus!
