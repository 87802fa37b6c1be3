//! MIDI and VST3 event types, and the conversions between them.
//!
//! VST3's event list is richer than the MIDI 1.0 wire format: note-on,
//! note-off and polyphonic pressure are typed structs with a unit-range
//! `f32` level, and every other channel message travels as a generic data
//! event carrying its wire bytes. One MIDI message becomes one VST3 event and
//! converts back to the same message.
//!
//! Floating-point fields of the ABI structs are carried as their IEEE-754
//! bit patterns (`f32::to_bits` / `f64::to_bits`).

use vstd::prelude::*;

use crate::constants::{
    K_DATA_EVENT, K_NOTE_EXPRESSION_VALUE_EVENT, K_NOTE_OFF_EVENT, K_NOTE_ON_EVENT,
    K_POLY_PRESSURE_EVENT,
};

verus! {

/// Bit pattern of the `f32` nearest to `k / 127` for each 7-bit MIDI value
/// `k`: the unit-range level a MIDI velocity or pressure maps to.
pub const UNIT_LEVEL_F32_BITS: [u32; 128] = [
    0x00000000, 0x3c010204, 0x3c810204, 0x3cc18306, 0x3d010204, 0x3d214285, 0x3d418306, 0x3d61c387,
    0x3d810204, 0x3d912245, 0x3da14285, 0x3db162c6, 0x3dc18306, 0x3dd1a347, 0x3de1c387, 0x3df1e3c8,
    0x3e010204, 0x3e091224, 0x3e112245, 0x3e193265, 0x3e214285, 0x3e2952a5, 0x3e3162c6, 0x3e3972e6,
    0x3e418306, 0x3e499326, 0x3e51a347, 0x3e59b367, 0x3e61c387, 0x3e69d3a7, 0x3e71e3c8, 0x3e79f3e8,
    0x3e810204, 0x3e850a14, 0x3e891224, 0x3e8d1a34, 0x3e912245, 0x3e952a55, 0x3e993265, 0x3e9d3a75,
    0x3ea14285, 0x3ea54a95, 0x3ea952a5, 0x3ead5ab5, 0x3eb162c6, 0x3eb56ad6, 0x3eb972e6, 0x3ebd7af6,
    0x3ec18306, 0x3ec58b16, 0x3ec99326, 0x3ecd9b36, 0x3ed1a347, 0x3ed5ab57, 0x3ed9b367, 0x3eddbb77,
    0x3ee1c387, 0x3ee5cb97, 0x3ee9d3a7, 0x3eeddbb7, 0x3ef1e3c8, 0x3ef5ebd8, 0x3ef9f3e8, 0x3efdfbf8,
    0x3f010204, 0x3f03060c, 0x3f050a14, 0x3f070e1c, 0x3f091224, 0x3f0b162c, 0x3f0d1a34, 0x3f0f1e3c,
    0x3f112245, 0x3f13264d, 0x3f152a55, 0x3f172e5d, 0x3f193265, 0x3f1b366d, 0x3f1d3a75, 0x3f1f3e7d,
    0x3f214285, 0x3f23468d, 0x3f254a95, 0x3f274e9d, 0x3f2952a5, 0x3f2b56ad, 0x3f2d5ab5, 0x3f2f5ebd,
    0x3f3162c6, 0x3f3366ce, 0x3f356ad6, 0x3f376ede, 0x3f3972e6, 0x3f3b76ee, 0x3f3d7af6, 0x3f3f7efe,
    0x3f418306, 0x3f43870e, 0x3f458b16, 0x3f478f1e, 0x3f499326, 0x3f4b972e, 0x3f4d9b36, 0x3f4f9f3e,
    0x3f51a347, 0x3f53a74f, 0x3f55ab57, 0x3f57af5f, 0x3f59b367, 0x3f5bb76f, 0x3f5dbb77, 0x3f5fbf7f,
    0x3f61c387, 0x3f63c78f, 0x3f65cb97, 0x3f67cf9f, 0x3f69d3a7, 0x3f6bd7af, 0x3f6ddbb7, 0x3f6fdfbf,
    0x3f71e3c8, 0x3f73e7d0, 0x3f75ebd8, 0x3f77efe0, 0x3f79f3e8, 0x3f7bf7f0, 0x3f7dfbf8, 0x3f800000,
];

/// The unit levels rise strictly with the MIDI value, from 0.0 for 0 to
/// 1.0 (`0x3F800000`) for 127: for non-negative `f32` values the order of
/// the bit patterns is the order of the values, so a larger velocity or
/// pressure always reaches the plugin as a larger level.
pub proof fn lemma_unit_levels_rise()
    ensures
        UNIT_LEVEL_F32_BITS[0] == 0,
        UNIT_LEVEL_F32_BITS[127] == 0x3F80_0000,
        forall|i: int, j: int|
            0 <= i < j < 128 ==> #[trigger] UNIT_LEVEL_F32_BITS[i] < #[trigger] UNIT_LEVEL_F32_BITS[j],
{
    assert(UNIT_LEVEL_F32_BITS[0] == 0);
    assert(UNIT_LEVEL_F32_BITS[127] == 0x3F80_0000);
}

/// A MIDI 1.0 channel message scheduled at a frame of the processing block.
#[derive(Debug, Clone, Copy, PartialEq, Eq, Structural)]
pub struct MidiEvent {
    /// Frame offset within the processing block.
    pub frame_offset: u32,
    /// Status byte (message kind in the high nibble, channel in the low one).
    pub status: u8,
    /// First data byte.
    pub data1: u8,
    /// Second data byte (zero for two-byte messages).
    pub data2: u8,
}

/// The message kind: the status byte with its channel nibble cleared.
pub open spec fn status_kind(status: u8) -> int {
    status - status % 16
}

/// Status bytes of channel messages: `0x80` to `0xEF`.
pub open spec fn is_channel_status(status: u8) -> bool {
    0x80 <= status < 0xF0
}

/// Wire length of the channel message that `status` starts: program change
/// and channel pressure carry one data byte, the others two.
pub open spec fn midi1_len(status: u8) -> nat {
    if status_kind(status) == 0xC0 || status_kind(status) == 0xD0 {
        2
    } else {
        3
    }
}

/// A well-formed MIDI 1.0 channel message.
pub open spec fn midi1_valid(e: MidiEvent) -> bool {
    &&& is_channel_status(e.status)
    &&& e.data1 < 128
    &&& e.data2 < 128
    &&& midi1_len(e.status) == 2 ==> e.data2 == 0
}

/// The message that the wire bytes `b` start with, scheduled at `frame`, if
/// they start with a complete channel message.
pub open spec fn spec_from_midi1_bytes(frame: u32, b: Seq<u8>) -> Option<MidiEvent> {
    if b.len() >= 1 && is_channel_status(b[0]) && b.len() >= midi1_len(b[0]) && b[1] < 128 && (
    midi1_len(b[0]) == 3 ==> b[2] < 128) {
        Some(
            MidiEvent {
                frame_offset: frame,
                status: b[0],
                data1: b[1],
                data2: if midi1_len(b[0]) == 3 {
                    b[2]
                } else {
                    0
                },
            },
        )
    } else {
        None
    }
}

/// Low four bits of a `u8`.
fn low_nibble(b: u8) -> (r: u8)
    ensures
        r == b % 16,
        r as int == b - status_kind(b),
{
    b % 16
}

/// Wire length of the channel message that `status` starts.
fn message_len(status: u8) -> (n: usize)
    ensures
        n == midi1_len(status),
{
    let kind = status - low_nibble(status);
    if kind == 0xC0 || kind == 0xD0 {
        2
    } else {
        3
    }
}

impl MidiEvent {
    /// A note-on message. `channel` is 0 to 15; `note` and `velocity` are
    /// 7-bit values.
    pub fn note_on(channel: u8, note: u8, velocity: u8) -> (e: MidiEvent)
        requires
            channel < 16,
            note < 128,
            velocity < 128,
        ensures
            e == (MidiEvent { frame_offset: 0, status: (0x90 + channel) as u8, data1: note, data2: velocity }),
            midi1_valid(e),
    {
        MidiEvent { frame_offset: 0, status: 0x90 + channel, data1: note, data2: velocity }
    }

    /// A note-off message. `channel` is 0 to 15; `note` and `velocity` are
    /// 7-bit values.
    pub fn note_off(channel: u8, note: u8, velocity: u8) -> (e: MidiEvent)
        requires
            channel < 16,
            note < 128,
            velocity < 128,
        ensures
            e == (MidiEvent { frame_offset: 0, status: (0x80 + channel) as u8, data1: note, data2: velocity }),
            midi1_valid(e),
    {
        MidiEvent { frame_offset: 0, status: 0x80 + channel, data1: note, data2: velocity }
    }

    /// A polyphonic key-pressure message.
    pub fn poly_pressure(channel: u8, note: u8, pressure: u8) -> (e: MidiEvent)
        requires
            channel < 16,
            note < 128,
            pressure < 128,
        ensures
            e == (MidiEvent { frame_offset: 0, status: (0xA0 + channel) as u8, data1: note, data2: pressure }),
            midi1_valid(e),
    {
        MidiEvent { frame_offset: 0, status: 0xA0 + channel, data1: note, data2: pressure }
    }

    /// A control-change message.
    pub fn control_change(channel: u8, controller: u8, value: u8) -> (e: MidiEvent)
        requires
            channel < 16,
            controller < 128,
            value < 128,
        ensures
            e == (MidiEvent { frame_offset: 0, status: (0xB0 + channel) as u8, data1: controller, data2: value }),
            midi1_valid(e),
    {
        MidiEvent { frame_offset: 0, status: 0xB0 + channel, data1: controller, data2: value }
    }

    /// A program-change message.
    pub fn program_change(channel: u8, program: u8) -> (e: MidiEvent)
        requires
            channel < 16,
            program < 128,
        ensures
            e == (MidiEvent { frame_offset: 0, status: (0xC0 + channel) as u8, data1: program, data2: 0 }),
            midi1_valid(e),
    {
        MidiEvent { frame_offset: 0, status: 0xC0 + channel, data1: program, data2: 0 }
    }

    /// The same message scheduled at `frame_offset`.
    pub fn with_frame_offset(self, frame_offset: u32) -> (e: MidiEvent)
        ensures
            e == (MidiEvent { frame_offset, ..self }),
    {
        MidiEvent { frame_offset, ..self }
    }

    /// The message's wire bytes (padded to three) and its wire length, or
    /// `None` if it is not a well-formed channel message.
    pub fn to_midi1_bytes(&self) -> (r: Option<([u8; 3], usize)>)
        ensures
            midi1_valid(*self) <==> r is Some,
            r matches Some((b, n)) ==> b@ == seq![self.status, self.data1, self.data2] && n
                == midi1_len(self.status),
    {
        if self.status < 0x80 || self.status >= 0xF0 || self.data1 >= 128 || self.data2 >= 128 {
            return None;
        }
        let n = message_len(self.status);
        if n == 2 && self.data2 != 0 {
            return None;
        }
        let b = [self.status, self.data1, self.data2];
        proof {
            assert(b@ =~= seq![self.status, self.data1, self.data2]);
        }
        Some((b, n))
    }

    /// The channel message the wire bytes start with, scheduled at `frame`;
    /// `None` unless they start with a complete channel message whose data
    /// bytes are 7-bit. Bytes past the first message are ignored.
    pub fn from_midi1_bytes(frame: u32, bytes: &[u8]) -> (r: Option<MidiEvent>)
        ensures
            r == spec_from_midi1_bytes(frame, bytes@),
    {
        if bytes.len() < 1 {
            return None;
        }
        let status = bytes[0];
        if status < 0x80 || status >= 0xF0 {
            return None;
        }
        let n = message_len(status);
        if bytes.len() < n || bytes[1] >= 128 {
            return None;
        }
        if n == 3 {
            if bytes[2] >= 128 {
                return None;
            }
            Some(MidiEvent { frame_offset: frame, status, data1: bytes[1], data2: bytes[2] })
        } else {
            Some(MidiEvent { frame_offset: frame, status, data1: bytes[1], data2: 0 })
        }
    }
}

/// A channel message survives the trip to wire bytes and back.
pub proof fn lemma_midi1_bytes_round_trip(e: MidiEvent)
    requires
        midi1_valid(e),
    ensures
        spec_from_midi1_bytes(e.frame_offset, seq![e.status, e.data1, e.data2].take(midi1_len(e.status) as int)) == Some(e),
{
    let b = seq![e.status, e.data1, e.data2].take(midi1_len(e.status) as int);
    assert(b[0] == e.status);
    assert(b[1] == e.data1);
    if midi1_len(e.status) == 3 {
        assert(b[2] == e.data2);
    }
}

/// Header shared by every VST3 event.
#[derive(Debug, Clone, Copy, PartialEq, Eq, Structural)]
pub struct EventHeader {
    pub bus_index: i32,
    /// Frame offset within the processing block.
    pub sample_offset: i32,
    /// Bit pattern of the `f64` musical position in quarter notes.
    pub ppq_position_bits: u64,
    pub flags: u16,
    /// One of the `K_*_EVENT` tags.
    pub event_type: u16,
}

/// A note-on event.
#[derive(Debug, Clone, Copy, PartialEq, Eq, Structural)]
pub struct NoteOnEvent {
    pub header: EventHeader,
    pub channel: i16,
    pub pitch: i16,
    /// Bit pattern of the `f32` tuning in cents.
    pub tuning_bits: u32,
    /// Bit pattern of the `f32` velocity, 0.0 to 1.0.
    pub velocity_bits: u32,
    pub length: i32,
    pub note_id: i32,
}

/// A note-off event.
#[derive(Debug, Clone, Copy, PartialEq, Eq, Structural)]
pub struct NoteOffEvent {
    pub header: EventHeader,
    pub channel: i16,
    pub pitch: i16,
    /// Bit pattern of the `f32` release velocity, 0.0 to 1.0.
    pub velocity_bits: u32,
    pub note_id: i32,
    /// Bit pattern of the `f32` tuning in cents.
    pub tuning_bits: u32,
}

/// A generic data event; here it carries MIDI wire bytes.
#[derive(Debug, Clone, Copy)]
pub struct DataEvent {
    pub header: EventHeader,
    /// Number of meaningful bytes in `bytes`.
    pub size: u32,
    pub event_type: u32,
    pub bytes: [u8; 16],
}

/// A polyphonic-pressure event.
#[derive(Debug, Clone, Copy, PartialEq, Eq, Structural)]
pub struct PolyPressureEvent {
    pub header: EventHeader,
    pub channel: i16,
    pub pitch: i16,
    /// Bit pattern of the `f32` pressure, 0.0 to 1.0.
    pub pressure_bits: u32,
    pub note_id: i32,
}

/// A note-expression value event.
#[derive(Debug, Clone, Copy, PartialEq, Eq, Structural)]
pub struct NoteExpressionValueEvent {
    pub header: EventHeader,
    pub note_id: i32,
    /// 0 = volume, 1 = pan, 2 = tuning, 3 = vibrato, 4 = brightness.
    pub type_id: u32,
    /// Bit pattern of the `f64` value, 0.0 to 1.0.
    pub value_bits: u64,
}

/// The VST3 events the host exchanges with a plugin.
#[derive(Debug, Clone, Copy)]
pub enum Vst3Event {
    NoteOn(NoteOnEvent),
    NoteOff(NoteOffEvent),
    Data(DataEvent),
    PolyPressure(PolyPressureEvent),
    NoteExpression(NoteExpressionValueEvent),
}

/// The frame offset of any event.
pub open spec fn event_offset(e: Vst3Event) -> i32 {
    match e {
        Vst3Event::NoteOn(x) => x.header.sample_offset,
        Vst3Event::NoteOff(x) => x.header.sample_offset,
        Vst3Event::Data(x) => x.header.sample_offset,
        Vst3Event::PolyPressure(x) => x.header.sample_offset,
        Vst3Event::NoteExpression(x) => x.header.sample_offset,
    }
}

impl Vst3Event {
    /// The event's frame offset within the block.
    pub fn sample_offset(&self) -> (r: i32)
        ensures
            r == event_offset(*self),
    {
        match self {
            Vst3Event::NoteOn(e) => e.header.sample_offset,
            Vst3Event::NoteOff(e) => e.header.sample_offset,
            Vst3Event::Data(e) => e.header.sample_offset,
            Vst3Event::PolyPressure(e) => e.header.sample_offset,
            Vst3Event::NoteExpression(e) => e.header.sample_offset,
        }
    }
}

/// A header on bus 0 at `offset`, with no musical position and no flags.
pub open spec fn plain_header(offset: i32, event_type: u16) -> EventHeader {
    EventHeader { bus_index: 0, sample_offset: offset, ppq_position_bits: 0, flags: 0, event_type }
}

/// The VST3 event a channel message becomes, or `None` for a message that
/// is not a well-formed channel message. Note-on, note-off and
/// poly-pressure map to their typed events (channel from the status, pitch
/// from the first data byte, level `data2 / 127`, tuning 0, no note id);
/// every other message becomes a data event carrying its three wire bytes.
pub open spec fn spec_vst3_event_from_midi(e: MidiEvent) -> Option<Vst3Event> {
    let channel = (e.status % 16) as i16;
    let offset = e.frame_offset as i32;
    let kind = status_kind(e.status);
    if !midi1_valid(e) {
        None
    } else if kind == 0x90 {
        Some(
            Vst3Event::NoteOn(
                NoteOnEvent {
                    header: plain_header(offset, K_NOTE_ON_EVENT),
                    channel,
                    pitch: e.data1 as i16,
                    tuning_bits: 0,
                    velocity_bits: UNIT_LEVEL_F32_BITS[e.data2 as int],
                    length: 0,
                    note_id: -1i32,
                },
            ),
        )
    } else if kind == 0x80 {
        Some(
            Vst3Event::NoteOff(
                NoteOffEvent {
                    header: plain_header(offset, K_NOTE_OFF_EVENT),
                    channel,
                    pitch: e.data1 as i16,
                    velocity_bits: UNIT_LEVEL_F32_BITS[e.data2 as int],
                    note_id: -1i32,
                    tuning_bits: 0,
                },
            ),
        )
    } else if kind == 0xA0 {
        Some(
            Vst3Event::PolyPressure(
                PolyPressureEvent {
                    header: plain_header(offset, K_POLY_PRESSURE_EVENT),
                    channel,
                    pitch: e.data1 as i16,
                    pressure_bits: UNIT_LEVEL_F32_BITS[e.data2 as int],
                    note_id: -1i32,
                },
            ),
        )
    } else {
        Some(
            Vst3Event::Data(
                DataEvent {
                    header: plain_header(offset, K_DATA_EVENT),
                    size: 3,
                    event_type: 0,
                    bytes: [e.status, e.data1, e.data2, 0, 0, 0, 0, 0, 0, 0, 0, 0, 0, 0, 0, 0],
                },
            ),
        )
    }
}

/// Build the VST3 event for a MIDI channel message; `None` for a message
/// that is not a well-formed channel message.
pub fn vst3_event_from_midi(event: &MidiEvent) -> (r: Option<Vst3Event>)
    ensures
        r == spec_vst3_event_from_midi(*event),
{
    let (bytes, _len) = match event.to_midi1_bytes() {
        Some(x) => x,
        None => {
            return None;
        },
    };
    let sample_offset = event.frame_offset as i32;
    let status = bytes[0];
    let channel = low_nibble(status) as i16;
    let kind = status - low_nibble(status);
    let header = EventHeader {
        bus_index: 0,
        sample_offset,
        ppq_position_bits: 0,
        flags: 0,
        event_type: 0,
    };
    if kind == 0x90 {
        let mut h = header;
        h.event_type = K_NOTE_ON_EVENT;
        Some(
            Vst3Event::NoteOn(
                NoteOnEvent {
                    header: h,
                    channel,
                    pitch: bytes[1] as i16,
                    tuning_bits: 0,
                    velocity_bits: UNIT_LEVEL_F32_BITS[bytes[2] as usize],
                    length: 0,
                    note_id: -1,
                },
            ),
        )
    } else if kind == 0x80 {
        let mut h = header;
        h.event_type = K_NOTE_OFF_EVENT;
        Some(
            Vst3Event::NoteOff(
                NoteOffEvent {
                    header: h,
                    channel,
                    pitch: bytes[1] as i16,
                    velocity_bits: UNIT_LEVEL_F32_BITS[bytes[2] as usize],
                    note_id: -1,
                    tuning_bits: 0,
                },
            ),
        )
    } else if kind == 0xA0 {
        let mut h = header;
        h.event_type = K_POLY_PRESSURE_EVENT;
        Some(
            Vst3Event::PolyPressure(
                PolyPressureEvent {
                    header: h,
                    channel,
                    pitch: bytes[1] as i16,
                    pressure_bits: UNIT_LEVEL_F32_BITS[bytes[2] as usize],
                    note_id: -1,
                },
            ),
        )
    } else {
        let mut h = header;
        h.event_type = K_DATA_EVENT;
        let data: [u8; 16] = [bytes[0], bytes[1], bytes[2], 0, 0, 0, 0, 0, 0, 0, 0, 0, 0, 0, 0, 0];
        Some(Vst3Event::Data(DataEvent { header: h, size: 3, event_type: 0, bytes: data }))
    }
}

/// What a MIDI message becomes for the plugin. A malformed message gives
/// nothing. A note-on (`0x9n`), note-off (`0x8n`) or poly-pressure (`0xAn`)
/// message becomes the typed event of that kind on channel `n`, at the
/// message's frame, for the note in the first data byte, with the level
/// (velocity or pressure) `data2 / 127` of the second data byte, no tuning
/// and no note id. Every other channel message travels as a three-byte data
/// event holding its wire bytes.
pub proof fn lemma_event_from_midi_fields(e: MidiEvent)
    ensures
        !midi1_valid(e) ==> spec_vst3_event_from_midi(e) is None,
        midi1_valid(e) && 0x90 <= e.status < 0xA0 ==> (spec_vst3_event_from_midi(e) matches Some(
            Vst3Event::NoteOn(x),
        ) && x.channel == e.status - 0x90 && x.pitch == e.data1 && x.velocity_bits
            == UNIT_LEVEL_F32_BITS[e.data2 as int] && x.tuning_bits == 0 && x.length == 0
            && x.note_id == -1 && x.header.event_type == K_NOTE_ON_EVENT
            && x.header.sample_offset == e.frame_offset as i32),
        midi1_valid(e) && 0x80 <= e.status < 0x90 ==> (spec_vst3_event_from_midi(e) matches Some(
            Vst3Event::NoteOff(x),
        ) && x.channel == e.status - 0x80 && x.pitch == e.data1 && x.velocity_bits
            == UNIT_LEVEL_F32_BITS[e.data2 as int] && x.tuning_bits == 0 && x.note_id == -1
            && x.header.event_type == K_NOTE_OFF_EVENT && x.header.sample_offset
            == e.frame_offset as i32),
        midi1_valid(e) && 0xA0 <= e.status < 0xB0 ==> (spec_vst3_event_from_midi(e) matches Some(
            Vst3Event::PolyPressure(x),
        ) && x.channel == e.status - 0xA0 && x.pitch == e.data1 && x.pressure_bits
            == UNIT_LEVEL_F32_BITS[e.data2 as int] && x.note_id == -1 && x.header.event_type
            == K_POLY_PRESSURE_EVENT && x.header.sample_offset == e.frame_offset as i32),
        midi1_valid(e) && 0xB0 <= e.status ==> (spec_vst3_event_from_midi(e) matches Some(
            Vst3Event::Data(d),
        ) && d.size == 3 && d.bytes@[0] == e.status && d.bytes@[1] == e.data1 && d.bytes@[2]
            == e.data2 && d.header.event_type == K_DATA_EVENT && d.header.sample_offset
            == e.frame_offset as i32),
{
    let s = e.status;
    assert(0x80 <= s < 0x90 ==> status_kind(s) == 0x80);
    assert(0x90 <= s < 0xA0 ==> status_kind(s) == 0x90);
    assert(0xA0 <= s < 0xB0 ==> status_kind(s) == 0xA0);
    assert(0xB0 <= s ==> status_kind(s) >= 0xB0);
    if midi1_valid(e) && 0xB0 <= s {
        if let Some(Vst3Event::Data(d)) = spec_vst3_event_from_midi(e) {
            assert(d.bytes@.take(3) =~= seq![e.status, e.data1, e.data2]);
            assert(d.bytes@[0] == d.bytes@.take(3)[0]);
            assert(d.bytes@[1] == d.bytes@.take(3)[1]);
            assert(d.bytes@[2] == d.bytes@.take(3)[2]);
        }
    }
}

/// The frame a VST3 offset maps to: negative offsets clamp to frame 0.
pub open spec fn frame_of_offset(offset: i32) -> u32 {
    if offset < 0 {
        0
    } else {
        offset as u32
    }
}

/// The MIDI message a VST3 event converts to. For the typed events, `level`
/// stands for the event's unit-range level scaled to 0..=127 (computed by
/// the caller, as it takes floating-point arithmetic); data events pass
/// their meaningful bytes through; note expressions have no MIDI form.
pub open spec fn spec_vst3_to_midi_event(v: Vst3Event, level: u8) -> Option<MidiEvent> {
    match v {
        Vst3Event::NoteOn(e) => spec_from_midi1_bytes(
            frame_of_offset(e.header.sample_offset),
            seq![(0x90 + (e.channel & 0x0F)) as u8, (e.pitch & 0x7F) as u8, level],
        ),
        Vst3Event::NoteOff(e) => spec_from_midi1_bytes(
            frame_of_offset(e.header.sample_offset),
            seq![(0x80 + (e.channel & 0x0F)) as u8, (e.pitch & 0x7F) as u8, level],
        ),
        Vst3Event::PolyPressure(e) => spec_from_midi1_bytes(
            frame_of_offset(e.header.sample_offset),
            seq![(0xA0 + (e.channel & 0x0F)) as u8, (e.pitch & 0x7F) as u8, level],
        ),
        Vst3Event::Data(e) => if e.size < 2 {
            None
        } else {
            spec_from_midi1_bytes(
                frame_of_offset(e.header.sample_offset),
                e.bytes@.take(e.size as int),
            )
        },
        Vst3Event::NoteExpression(_) => None,
    }
}

/// A data event's bytes fit in its buffer (a larger `size` is malformed).
pub open spec fn event_size_ok(v: Vst3Event) -> bool {
    match v {
        Vst3Event::Data(e) => e.size <= 16,
        _ => true,
    }
}

/// Low four bits of a channel number (its value modulo 16).
fn channel_nibble(channel: i16) -> (r: u8)
    ensures
        r as int == (channel & 0x0F) as int,
        0 <= channel & 0x0F < 16,
        r < 16,
{
    let n = channel & 0x0F;
    assert(0 <= n < 16) by (bit_vector)
        requires
            n == channel & 0x0F,
    ;
    n as u8
}

/// Low seven bits of a pitch.
fn pitch_bits(pitch: i16) -> (r: u8)
    ensures
        r as int == (pitch & 0x7F) as int,
        0 <= pitch & 0x7F < 128,
        r < 128,
{
    let n = pitch & 0x7F;
    assert(0 <= n < 128) by (bit_vector)
        requires
            n == pitch & 0x7F,
    ;
    n as u8
}

/// Frame of a VST3 offset, negative offsets clamped to 0.
fn offset_frame(offset: i32) -> (f: u32)
    ensures
        f == frame_of_offset(offset),
{
    if offset < 0 {
        0
    } else {
        offset as u32
    }
}

/// Convert a VST3 event back to a MIDI message. For note-on, note-off and
/// poly-pressure events `level` is the event's velocity or pressure scaled
/// to 0..=127 (`(value * 127.0).clamp(0.0, 127.0) as u8`, which the caller
/// computes); it is ignored for the other events. Data events pass their
/// first `size` bytes through (`None` below two bytes); note expressions
/// have no MIDI form.
pub fn vst3_to_midi_event(event: &Vst3Event, level: u8) -> (r: Option<MidiEvent>)
    requires
        level < 128,
        event_size_ok(*event),
    ensures
        r == spec_vst3_to_midi_event(*event, level),
{
    match event {
        Vst3Event::NoteOn(e) => {
            let status = 0x90 + channel_nibble(e.channel);
            let bytes: [u8; 3] = [status, pitch_bits(e.pitch), level];
            proof {
                assert(bytes@ =~= seq![
                    (0x90 + (e.channel & 0x0F)) as u8,
                    (e.pitch & 0x7F) as u8,
                    level,
                ]);
            }
            MidiEvent::from_midi1_bytes(offset_frame(e.header.sample_offset), &bytes)
        },
        Vst3Event::NoteOff(e) => {
            let status = 0x80 + channel_nibble(e.channel);
            let bytes: [u8; 3] = [status, pitch_bits(e.pitch), level];
            proof {
                assert(bytes@ =~= seq![
                    (0x80 + (e.channel & 0x0F)) as u8,
                    (e.pitch & 0x7F) as u8,
                    level,
                ]);
            }
            MidiEvent::from_midi1_bytes(offset_frame(e.header.sample_offset), &bytes)
        },
        Vst3Event::PolyPressure(e) => {
            let status = 0xA0 + channel_nibble(e.channel);
            let bytes: [u8; 3] = [status, pitch_bits(e.pitch), level];
            proof {
                assert(bytes@ =~= seq![
                    (0xA0 + (e.channel & 0x0F)) as u8,
                    (e.pitch & 0x7F) as u8,
                    level,
                ]);
            }
            MidiEvent::from_midi1_bytes(offset_frame(e.header.sample_offset), &bytes)
        },
        Vst3Event::Data(e) => {
            if e.size < 2 {
                return None;
            }
            let bytes = &e.bytes[0..e.size as usize];
            MidiEvent::from_midi1_bytes(offset_frame(e.header.sample_offset), bytes)
        },
        Vst3Event::NoteExpression(_) => None,
    }
}

/// What a VST3 event becomes as a MIDI message. A note-on, note-off or
/// poly-pressure event on channel 0..=15 for a note 0..=127 becomes the
/// message of that kind (`0x9n`, `0x8n`, `0xAn`) on its channel, for its
/// note, with `level` as second data byte, at its offset (a negative offset
/// at frame 0). A data event of fewer than two bytes gives nothing; one
/// whose meaningful bytes start with a complete channel message gives that
/// message: two bytes suffice for a program change or channel pressure
/// (`0xCn`, `0xDn`, second data byte zero), the other kinds take three. A
/// note expression has no MIDI form.
pub proof fn lemma_event_to_midi_fields(v: Vst3Event, level: u8)
    requires
        level < 128,
        event_size_ok(v),
    ensures
        match v {
            Vst3Event::NoteOn(x) => 0 <= x.channel < 16 && 0 <= x.pitch < 128 ==> (
            spec_vst3_to_midi_event(v, level) == Some(
                MidiEvent {
                    frame_offset: if x.header.sample_offset < 0 { 0 } else { x.header.sample_offset as u32 },
                    status: (0x90 + x.channel) as u8,
                    data1: x.pitch as u8,
                    data2: level,
                },
            )),
            Vst3Event::NoteOff(x) => 0 <= x.channel < 16 && 0 <= x.pitch < 128 ==> (
            spec_vst3_to_midi_event(v, level) == Some(
                MidiEvent {
                    frame_offset: if x.header.sample_offset < 0 { 0 } else { x.header.sample_offset as u32 },
                    status: (0x80 + x.channel) as u8,
                    data1: x.pitch as u8,
                    data2: level,
                },
            )),
            Vst3Event::PolyPressure(x) => 0 <= x.channel < 16 && 0 <= x.pitch < 128 ==> (
            spec_vst3_to_midi_event(v, level) == Some(
                MidiEvent {
                    frame_offset: if x.header.sample_offset < 0 { 0 } else { x.header.sample_offset as u32 },
                    status: (0xA0 + x.channel) as u8,
                    data1: x.pitch as u8,
                    data2: level,
                },
            )),
            Vst3Event::Data(d) => {
                &&& d.size < 2 ==> spec_vst3_to_midi_event(v, level) is None
                &&& d.size >= 2 && 0xC0 <= d.bytes@[0] < 0xE0 && d.bytes@[1] < 128 ==> (
                spec_vst3_to_midi_event(v, level) == Some(
                    MidiEvent {
                        frame_offset: if d.header.sample_offset < 0 { 0 } else { d.header.sample_offset as u32 },
                        status: d.bytes@[0],
                        data1: d.bytes@[1],
                        data2: 0,
                    },
                ))
                &&& d.size >= 3 && (0x80 <= d.bytes@[0] < 0xC0 || 0xE0 <= d.bytes@[0] < 0xF0)
                    && d.bytes@[1] < 128 && d.bytes@[2] < 128 ==> (spec_vst3_to_midi_event(
                    v,
                    level,
                ) == Some(
                    MidiEvent {
                        frame_offset: if d.header.sample_offset < 0 { 0 } else { d.header.sample_offset as u32 },
                        status: d.bytes@[0],
                        data1: d.bytes@[1],
                        data2: d.bytes@[2],
                    },
                ))
            },
            Vst3Event::NoteExpression(_) => spec_vst3_to_midi_event(v, level) is None,
        },
{
    match v {
        Vst3Event::NoteOn(x) => {
            let ch = x.channel;
            let p = x.pitch;
            if 0 <= ch < 16 && 0 <= p < 128 {
                assert(ch & 0x0F == ch) by (bit_vector)
                    requires
                        0 <= ch < 16,
                ;
                assert(p & 0x7F == p) by (bit_vector)
                    requires
                        0 <= p < 128,
                ;
                assert(status_kind((0x90 + ch) as u8) == 0x90);
            }
        },
        Vst3Event::NoteOff(x) => {
            let ch = x.channel;
            let p = x.pitch;
            if 0 <= ch < 16 && 0 <= p < 128 {
                assert(ch & 0x0F == ch) by (bit_vector)
                    requires
                        0 <= ch < 16,
                ;
                assert(p & 0x7F == p) by (bit_vector)
                    requires
                        0 <= p < 128,
                ;
                assert(status_kind((0x80 + ch) as u8) == 0x80);
            }
        },
        Vst3Event::PolyPressure(x) => {
            let ch = x.channel;
            let p = x.pitch;
            if 0 <= ch < 16 && 0 <= p < 128 {
                assert(ch & 0x0F == ch) by (bit_vector)
                    requires
                        0 <= ch < 16,
                ;
                assert(p & 0x7F == p) by (bit_vector)
                    requires
                        0 <= p < 128,
                ;
                assert(status_kind((0xA0 + ch) as u8) == 0xA0);
            }
        },
        Vst3Event::Data(d) => {
            if d.size >= 2 {
                let b = d.bytes@.take(d.size as int);
                assert(b[0] == d.bytes@[0]);
                assert(b[1] == d.bytes@[1]);
                let s0 = d.bytes@[0];
                assert(0xC0 <= s0 < 0xE0 ==> midi1_len(s0) == 2);
                assert((0x80 <= s0 < 0xC0 || 0xE0 <= s0 < 0xF0) ==> midi1_len(s0) == 3);
                if d.size >= 3 {
                    assert(b[2] == d.bytes@[2]);
                }
            }
        },
        Vst3Event::NoteExpression(_) => {},
    }
}

/// One MIDI message converts to a VST3 event and back to the same message:
/// for a well-formed channel message scheduled at a frame that fits a VST3
/// offset, converting the event back, with its level scaled to `data2`,
/// gives back the message it started from.
pub proof fn lemma_midi_round_trip(e: MidiEvent, v: Vst3Event)
    requires
        midi1_valid(e),
        e.frame_offset <= i32::MAX,
        spec_vst3_event_from_midi(e) == Some(v),
    ensures
        event_size_ok(v),
        spec_vst3_to_midi_event(v, e.data2) == Some(e),
{
    let kind = status_kind(e.status);
    let ch = (e.status % 16) as i16;
    assert(ch & 0x0F == ch) by (bit_vector)
        requires
            0 <= ch < 16,
    ;
    let p = e.data1 as i16;
    assert(p & 0x7F == p) by (bit_vector)
        requires
            0 <= p < 128,
    ;
    if kind != 0x90 && kind != 0x80 && kind != 0xA0 {
        if let Vst3Event::Data(d) = v {
            assert(d.bytes@.take(3) =~= seq![e.status, e.data1, e.data2]);
            let b = d.bytes@.take(3);
            assert(b[0] == e.status);
        }
    }
}

/// Type of a note expression.
#[derive(Debug, Clone, Copy, PartialEq, Eq, Structural)]
pub enum NoteExpressionType {
    /// Volume (0.0 = -inf dB, 0.5 = 0 dB, 1.0 = +6 dB).
    Volume,
    /// Pan (0.0 = left, 0.5 = center, 1.0 = right).
    Pan,
    /// Tuning in semitones (-120 to +120 mapped to 0.0 to 1.0).
    Tuning,
    /// Vibrato intensity (0.0 = none, 1.0 = max).
    Vibrato,
    /// Brightness / filter cutoff (0.0 = dark, 1.0 = bright).
    Brightness,
}

/// The VST3 type id of each note-expression type.
pub open spec fn expression_type_id(t: NoteExpressionType) -> u32 {
    match t {
        NoteExpressionType::Volume => 0,
        NoteExpressionType::Pan => 1,
        NoteExpressionType::Tuning => 2,
        NoteExpressionType::Vibrato => 3,
        NoteExpressionType::Brightness => 4,
    }
}

impl NoteExpressionType {
    /// The VST3 type id of this expression type.
    pub fn to_type_id(self) -> (id: u32)
        ensures
            id == expression_type_id(self),
    {
        match self {
            NoteExpressionType::Volume => 0,
            NoteExpressionType::Pan => 1,
            NoteExpressionType::Tuning => 2,
            NoteExpressionType::Vibrato => 3,
            NoteExpressionType::Brightness => 4,
        }
    }

    /// The expression type with VST3 type id `id`, if it is one of the five
    /// known ones.
    pub fn from_type_id(id: u32) -> (r: Option<NoteExpressionType>)
        ensures
            id < 5 <==> r is Some,
            r matches Some(t) ==> expression_type_id(t) == id,
    {
        match id {
            0 => Some(NoteExpressionType::Volume),
            1 => Some(NoteExpressionType::Pan),
            2 => Some(NoteExpressionType::Tuning),
            3 => Some(NoteExpressionType::Vibrato),
            4 => Some(NoteExpressionType::Brightness),
            _ => None,
        }
    }
}

/// Type ids and types correspond one to one.
pub proof fn lemma_type_id_round_trip(t: NoteExpressionType)
    ensures
        expression_type_id(t) < 5,
        forall|u: NoteExpressionType| expression_type_id(u) == expression_type_id(t) ==> u == t,
{
}

/// A note-expression value for one note.
#[derive(Debug, Clone, Copy, PartialEq, Eq, Structural)]
pub struct NoteExpressionValue {
    pub sample_offset: i32,
    pub note_id: i32,
    pub expression_type: NoteExpressionType,
    /// Bit pattern of the `f64` value, 0.0 to 1.0.
    pub value_bits: u64,
}

/// The VST3 event carrying a note-expression value.
pub open spec fn expression_event(v: NoteExpressionValue) -> Vst3Event {
    Vst3Event::NoteExpression(
        NoteExpressionValueEvent {
            header: plain_header(v.sample_offset, K_NOTE_EXPRESSION_VALUE_EVENT),
            note_id: v.note_id,
            type_id: expression_type_id(v.expression_type),
            value_bits: v.value_bits,
        },
    )
}

/// The note-expression value a VST3 event carries, if it is a
/// note-expression event of a known type.
pub open spec fn spec_vst3_to_note_expression(e: Vst3Event) -> Option<NoteExpressionValue> {
    match e {
        Vst3Event::NoteExpression(x) => if x.type_id < 5 {
            Some(
                NoteExpressionValue {
                    sample_offset: x.header.sample_offset,
                    note_id: x.note_id,
                    expression_type: if x.type_id == 0 {
                        NoteExpressionType::Volume
                    } else if x.type_id == 1 {
                        NoteExpressionType::Pan
                    } else if x.type_id == 2 {
                        NoteExpressionType::Tuning
                    } else if x.type_id == 3 {
                        NoteExpressionType::Vibrato
                    } else {
                        NoteExpressionType::Brightness
                    },
                    value_bits: x.value_bits,
                },
            )
        } else {
            None
        },
        _ => None,
    }
}

impl NoteExpressionValue {
    /// The VST3 note-expression event for this value.
    pub fn to_vst3_event(&self) -> (e: Vst3Event)
        ensures
            e == expression_event(*self),
    {
        let header = EventHeader {
            bus_index: 0,
            sample_offset: self.sample_offset,
            ppq_position_bits: 0,
            flags: 0,
            event_type: K_NOTE_EXPRESSION_VALUE_EVENT,
        };
        Vst3Event::NoteExpression(
            NoteExpressionValueEvent {
                header,
                note_id: self.note_id,
                type_id: self.expression_type.to_type_id(),
                value_bits: self.value_bits,
            },
        )
    }
}

/// The note-expression value a VST3 event carries; `None` for other events
/// and for unknown expression types.
pub fn vst3_to_note_expression(event: &Vst3Event) -> (r: Option<NoteExpressionValue>)
    ensures
        r == spec_vst3_to_note_expression(*event),
{
    match event {
        Vst3Event::NoteExpression(e) => {
            let expression_type = match NoteExpressionType::from_type_id(e.type_id) {
                Some(t) => t,
                None => {
                    return None;
                },
            };
            Some(
                NoteExpressionValue {
                    sample_offset: e.header.sample_offset,
                    note_id: e.note_id,
                    expression_type,
                    value_bits: e.value_bits,
                },
            )
        },
        _ => None,
    }
}

/// The VST3 note-expression type ids: volume 0, pan 1, tuning 2, vibrato 3,
/// brightness 4. A note-expression event with one of these ids reads back
/// as a value of that type with the event's offset, note id and value; an
/// event with any other id, or another kind of event, reads back as
/// nothing.
pub proof fn lemma_expression_type_ids(e: Vst3Event)
    ensures
        expression_type_id(NoteExpressionType::Volume) == 0,
        expression_type_id(NoteExpressionType::Pan) == 1,
        expression_type_id(NoteExpressionType::Tuning) == 2,
        expression_type_id(NoteExpressionType::Vibrato) == 3,
        expression_type_id(NoteExpressionType::Brightness) == 4,
        match e {
            Vst3Event::NoteExpression(x) => if x.type_id < 5 {
                spec_vst3_to_note_expression(e) matches Some(v) && expression_type_id(
                    v.expression_type,
                ) == x.type_id && v.sample_offset == x.header.sample_offset && v.note_id
                    == x.note_id && v.value_bits == x.value_bits
            } else {
                spec_vst3_to_note_expression(e) is None
            },
            _ => spec_vst3_to_note_expression(e) is None,
        },
{
}

/// A note-expression value reaches the plugin as a note-expression event at
/// the value's offset on bus 0, for the value's note, with the type id of
/// its type and its value unchanged.
pub proof fn lemma_expression_event_fields(v: NoteExpressionValue)
    ensures
        expression_event(v) matches Vst3Event::NoteExpression(x) && x.header.event_type
            == K_NOTE_EXPRESSION_VALUE_EVENT && x.header.sample_offset == v.sample_offset
            && x.header.bus_index == 0 && x.note_id == v.note_id && x.type_id == expression_type_id(
            v.expression_type,
        ) && x.value_bits == v.value_bits,
{
}

/// A note-expression value survives the trip to a VST3 event and back.
pub proof fn lemma_note_expression_round_trip(v: NoteExpressionValue)
    ensures
        spec_vst3_to_note_expression(expression_event(v)) == Some(v),
{
}

} // verus!
