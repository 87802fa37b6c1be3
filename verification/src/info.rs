//! Descriptors a plugin reports about itself: the factory, its classes,
//! buses and parameters, and the host-facing summary of a loaded plugin.

use vstd::prelude::*;

use crate::constants::K_RESULT_OK;
use crate::error::{LoadStage, Vst3Error};
use crate::helpers::{c_str_bytes, c_str_to_string, utf16_text, utf16_to_string, utf8_lossy};
use crate::parameter_flags;

verus! {

/// Summary of a plugin: identity, vendor, channel layout and capabilities.
#[derive(Debug, Clone)]
pub struct PluginInfo {
    pub id: String,
    pub name: String,
    pub vendor: String,
    pub version: String,
    pub num_inputs: usize,
    pub num_outputs: usize,
    pub has_midi_input: bool,
    pub supports_f64: bool,
}

impl PluginInfo {
    /// A stereo-in, stereo-out plugin with the given id and name, no vendor
    /// or version, no MIDI input and no 64-bit processing.
    pub fn new(id: String, name: String) -> (p: PluginInfo)
        ensures
            p.id == id,
            p.name == name,
            p.vendor@ == Seq::<char>::empty(),
            p.version@ == Seq::<char>::empty(),
            p.num_inputs == 2,
            p.num_outputs == 2,
            !p.has_midi_input,
            !p.supports_f64,
    {
        PluginInfo {
            id,
            name,
            vendor: String::new(),
            version: String::new(),
            num_inputs: 2,
            num_outputs: 2,
            has_midi_input: false,
            supports_f64: false,
        }
    }

    /// The same summary with `vendor` as its vendor.
    pub fn vendor(self, vendor: String) -> (p: PluginInfo)
        ensures
            p == (PluginInfo { vendor, ..self }),
    {
        PluginInfo { vendor, ..self }
    }

    /// The same summary with `version` as its version.
    pub fn version(self, version: String) -> (p: PluginInfo)
        ensures
            p == (PluginInfo { version, ..self }),
    {
        PluginInfo { version, ..self }
    }

    /// The same summary with `inputs` input and `outputs` output channels.
    pub fn audio_io(self, inputs: usize, outputs: usize) -> (p: PluginInfo)
        ensures
            p == (PluginInfo { num_inputs: inputs, num_outputs: outputs, ..self }),
    {
        PluginInfo { num_inputs: inputs, num_outputs: outputs, ..self }
    }

    /// The same summary with MIDI input present or not.
    pub fn midi(self, has_midi: bool) -> (p: PluginInfo)
        ensures
            p == (PluginInfo { has_midi_input: has_midi, ..self }),
    {
        PluginInfo { has_midi_input: has_midi, ..self }
    }

    /// The same summary with 64-bit processing supported or not.
    pub fn f64_support(self, supports: bool) -> (p: PluginInfo)
        ensures
            p == (PluginInfo { supports_f64: supports, ..self }),
    {
        PluginInfo { supports_f64: supports, ..self }
    }
}

/// Pixel dimensions of a plugin editor window.
#[derive(Debug, Clone, Copy, PartialEq, Eq, Structural)]
pub struct EditorSize {
    pub width: u32,
    pub height: u32,
}

/// A rectangle in view coordinates (`ViewRect` in the SDK).
#[derive(Debug, Clone, Copy, PartialEq, Eq, Structural)]
pub struct ViewRect {
    pub left: i32,
    pub top: i32,
    pub right: i32,
    pub bottom: i32,
}

impl ViewRect {
    /// A rectangle whose width and height both fit in an `i32`.
    pub open spec fn spans_fit(self) -> bool {
        i32::MIN <= self.right - self.left <= i32::MAX && i32::MIN <= self.bottom - self.top
            <= i32::MAX
    }

    /// Horizontal extent, `right - left`.
    pub fn width(&self) -> (w: i32)
        requires
            i32::MIN <= self.right - self.left <= i32::MAX,
        ensures
            w == self.right - self.left,
    {
        self.right - self.left
    }

    /// Vertical extent, `bottom - top`.
    pub fn height(&self) -> (h: i32)
        requires
            i32::MIN <= self.bottom - self.top <= i32::MAX,
        ensures
            h == self.bottom - self.top,
    {
        self.bottom - self.top
    }
}

/// The editor size a plugin asks for with `IPlugFrame::resizeView`: the
/// rectangle's width and height, each reinterpreted as unsigned.
pub fn editor_size_for_rect(rect: ViewRect) -> (s: EditorSize)
    requires
        rect.spans_fit(),
    ensures
        s.width == (rect.right - rect.left) as u32,
        s.height == (rect.bottom - rect.top) as u32,
{
    EditorSize { width: rect.width() as u32, height: rect.height() as u32 }
}

/// Factory description as the C struct `PFactoryInfo` carries it.
#[derive(Clone)]
pub struct PFactoryInfo {
    pub vendor: [i8; 64],
    pub url: [i8; 256],
    pub email: [i8; 128],
    pub flags: i32,
}

impl Default for PFactoryInfo {
    fn default() -> (d: PFactoryInfo)
        ensures
            forall|i: int| 0 <= i < 64 ==> d.vendor@[i] == 0i8,
            forall|i: int| 0 <= i < 256 ==> d.url@[i] == 0i8,
            forall|i: int| 0 <= i < 128 ==> d.email@[i] == 0i8,
            d.flags == 0,
    {
        PFactoryInfo { vendor: [0i8; 64], url: [0i8; 256], email: [0i8; 128], flags: 0 }
    }
}

/// Class description as the C struct `PClassInfo` carries it.
#[derive(Clone)]
pub struct PClassInfo {
    pub cid: [u8; 16],
    pub cardinality: i32,
    pub category: [i8; 32],
    pub name: [i8; 64],
}

impl Default for PClassInfo {
    fn default() -> (d: PClassInfo)
        ensures
            forall|i: int| 0 <= i < 16 ==> d.cid@[i] == 0u8,
            d.cardinality == 0,
            forall|i: int| 0 <= i < 32 ==> d.category@[i] == 0i8,
            forall|i: int| 0 <= i < 64 ==> d.name@[i] == 0i8,
    {
        PClassInfo { cid: [0u8; 16], cardinality: 0, category: [0i8; 32], name: [0i8; 64] }
    }
}

/// Decoded factory description.
#[derive(Debug, Clone)]
pub struct FactoryInfo {
    pub vendor: String,
    pub url: String,
    pub email: String,
}

/// Decoded class description.
#[derive(Debug, Clone)]
pub struct ClassInfo {
    /// The class id as the SDK's signed `TUID`.
    pub cid: [i8; 16],
    /// The same 16 bytes, unsigned.
    pub cid_bytes: [u8; 16],
    pub category: String,
    pub name: String,
}

/// The text of a C string buffer, as `c_str_to_string` decodes it.
pub open spec fn c_text(chars: Seq<i8>) -> Seq<char> {
    utf8_lossy(c_str_bytes(chars))
}

/// The signed C `char` with the same bit pattern as a byte.
pub open spec fn byte_c_char(b: u8) -> i8 {
    if b < 128 {
        b as i8
    } else {
        (b - 256) as i8
    }
}

/// Convert a 16-byte GUID to the SDK's `TUID`: the same bytes, signed.
pub fn guid_as_tuid(guid: &[u8; 16]) -> (t: [i8; 16])
    ensures
        forall|i: int| 0 <= i < 16 ==> t@[i] == byte_c_char(guid@[i]),
{
    let mut out: [i8; 16] = [0i8; 16];
    let mut i: usize = 0;
    while i < 16
        invariant
            i <= 16,
            guid@.len() == 16,
            out@.len() == 16,
            forall|k: int| 0 <= k < i ==> out@[k] == byte_c_char(guid@[k]),
        decreases 16 - i,
    {
        let b = guid[i];
        out[i] = if b < 128 {
            b as i8
        } else {
            (b as i16 - 256) as i8
        };
        i = i + 1;
    }
    out
}

/// `IPluginFactory::getFactoryInfo` as the host reports it: the decoded
/// strings when the call returned `K_RESULT_OK`, nothing otherwise.
pub fn factory_info_from(result: i32, info: &PFactoryInfo) -> (r: Option<FactoryInfo>)
    ensures
        result == K_RESULT_OK <==> r is Some,
        r matches Some(f) ==> f.vendor@ == c_text(info.vendor@) && f.url@ == c_text(info.url@)
            && f.email@ == c_text(info.email@),
{
    if result == K_RESULT_OK {
        Some(
            FactoryInfo {
                vendor: c_str_to_string(&info.vendor),
                url: c_str_to_string(&info.url),
                email: c_str_to_string(&info.email),
            },
        )
    } else {
        None
    }
}

/// `IPluginFactory::getClassInfo` as the host reports it: the decoded class
/// when the call returned `K_RESULT_OK`, otherwise a plugin error at the
/// factory stage carrying the code.
pub fn class_info_from(result: i32, info: &PClassInfo) -> (r: Result<ClassInfo, Vst3Error>)
    ensures
        result == K_RESULT_OK <==> r is Ok,
        r matches Ok(c) ==> c.cid_bytes@ == info.cid@ && (forall|i: int|
            0 <= i < 16 ==> c.cid@[i] == byte_c_char(info.cid@[i])) && c.category@ == c_text(
            info.category@,
        ) && c.name@ == c_text(info.name@),
        r matches Err(e) ==> e == (Vst3Error::PluginError { stage: LoadStage::Factory, code: result }),
{
    if result == K_RESULT_OK {
        Ok(
            ClassInfo {
                cid: guid_as_tuid(&info.cid),
                cid_bytes: info.cid,
                category: c_str_to_string(&info.category),
                name: c_str_to_string(&info.name),
            },
        )
    } else {
        Err(Vst3Error::PluginError { stage: LoadStage::Factory, code: result })
    }
}

/// The outcome of `IPluginFactory::createInstance`: success only when the
/// call returned `K_RESULT_OK` and produced an object; otherwise a plugin
/// error at the instantiation stage carrying the code.
pub fn check_instance_created(result: i32, object_present: bool) -> (r: Result<(), Vst3Error>)
    ensures
        r is Ok <==> (result == K_RESULT_OK && object_present),
        r matches Err(e) ==> e == (Vst3Error::PluginError {
            stage: LoadStage::Instantiation,
            code: result,
        }),
{
    if result != K_RESULT_OK || !object_present {
        Err(Vst3Error::PluginError { stage: LoadStage::Instantiation, code: result })
    } else {
        Ok(())
    }
}

/// Bus descriptor as `IComponent::getBusInfo` fills it.
#[derive(Clone)]
pub struct BusInfo {
    pub media_type: i32,
    pub direction: i32,
    pub channel_count: i32,
    pub name: [u16; 128],
    pub bus_type: i32,
    pub flags: u32,
}

impl Default for BusInfo {
    fn default() -> (d: BusInfo)
        ensures
            d.media_type == 0,
            d.direction == 0,
            d.channel_count == 0,
            forall|i: int| 0 <= i < 128 ==> d.name@[i] == 0u16,
            d.bus_type == 0,
            d.flags == 0,
    {
        BusInfo {
            media_type: 0,
            direction: 0,
            channel_count: 0,
            name: [0u16; 128],
            bus_type: 0,
            flags: 0,
        }
    }
}

impl BusInfo {
    /// `MediaType` discriminant (`K_AUDIO` or `K_EVENT`).
    pub fn media_type(&self) -> (r: i32)
        ensures
            r == self.media_type,
    {
        self.media_type
    }

    /// `BusDirection` (`K_INPUT` or `K_OUTPUT`).
    pub fn direction(&self) -> (r: i32)
        ensures
            r == self.direction,
    {
        self.direction
    }

    /// Number of channels on this bus.
    pub fn channel_count(&self) -> (r: i32)
        ensures
            r == self.channel_count,
    {
        self.channel_count
    }

    /// Bus-flags bitfield (`kDefaultActive`, `kIsControlVoltage`, ...).
    pub fn flags(&self) -> (r: u32)
        ensures
            r == self.flags,
    {
        self.flags
    }

    /// `BusType` (`kMain` or `kAux`).
    pub fn bus_type(&self) -> (r: i32)
        ensures
            r == self.bus_type,
    {
        self.bus_type
    }

    /// Display name decoded from the UTF-16 buffer.
    pub fn name_string(&self) -> (s: String)
        ensures
            s@ == utf16_text(self.name@),
    {
        utf16_to_string(&self.name)
    }
}

/// Host-facing parameter descriptor, as `IEditController::getParameterInfo`
/// fills it. The default normalized value is held as the bit pattern of its
/// `f64`.
#[derive(Clone)]
pub struct Vst3ParameterInfo {
    /// Stable parameter id used in automation messages.
    pub id: u32,
    /// UTF-16 display title.
    pub title: [u16; 128],
    /// UTF-16 abbreviated title (for narrow UIs).
    pub short_title: [u16; 128],
    /// UTF-16 value units (e.g. "dB", "Hz").
    pub units: [u16; 128],
    /// Number of discrete steps, or 0 for continuous parameters.
    pub step_count: i32,
    /// Bits of the default value, normalized to 0.0 - 1.0.
    pub default_normalized_value_bits: u64,
    /// Unit the parameter belongs to (for `IUnitInfo` plugins).
    pub unit_id: i32,
    /// `ParameterFlags` bitfield; see [`crate::parameter_flags`].
    pub flags: i32,
}

impl Default for Vst3ParameterInfo {
    fn default() -> (d: Vst3ParameterInfo)
        ensures
            d.id == 0,
            forall|i: int| 0 <= i < 128 ==> d.title@[i] == 0u16,
            forall|i: int| 0 <= i < 128 ==> d.short_title@[i] == 0u16,
            forall|i: int| 0 <= i < 128 ==> d.units@[i] == 0u16,
            d.step_count == 0,
            d.default_normalized_value_bits == 0,
            d.unit_id == 0,
            d.flags == 0,
    {
        Vst3ParameterInfo {
            id: 0,
            title: [0u16; 128],
            short_title: [0u16; 128],
            units: [0u16; 128],
            step_count: 0,
            default_normalized_value_bits: 0,
            unit_id: 0,
            flags: 0,
        }
    }
}

impl Vst3ParameterInfo {
    /// Decoded title.
    pub fn title_string(&self) -> (s: String)
        ensures
            s@ == utf16_text(self.title@),
    {
        utf16_to_string(&self.title)
    }

    /// Decoded short title.
    pub fn short_title_string(&self) -> (s: String)
        ensures
            s@ == utf16_text(self.short_title@),
    {
        utf16_to_string(&self.short_title)
    }

    /// Decoded units.
    pub fn units_string(&self) -> (s: String)
        ensures
            s@ == utf16_text(self.units@),
    {
        utf16_to_string(&self.units)
    }

    /// True if the parameter carries the `CAN_AUTOMATE` flag.
    pub fn can_automate(&self) -> (b: bool)
        ensures
            b == (self.flags & parameter_flags::CAN_AUTOMATE != 0),
    {
        self.flags & parameter_flags::CAN_AUTOMATE != 0
    }

    /// True if the parameter is read-only.
    pub fn is_read_only(&self) -> (b: bool)
        ensures
            b == (self.flags & parameter_flags::IS_READ_ONLY != 0),
    {
        self.flags & parameter_flags::IS_READ_ONLY != 0
    }

    /// True if the parameter should be hidden from the host UI.
    pub fn is_hidden(&self) -> (b: bool)
        ensures
            b == (self.flags & parameter_flags::IS_HIDDEN != 0),
    {
        self.flags & parameter_flags::IS_HIDDEN != 0
    }

    /// True if the parameter is the bypass parameter.
    pub fn is_bypass(&self) -> (b: bool)
        ensures
            b == (self.flags & parameter_flags::IS_BYPASS != 0),
    {
        self.flags & parameter_flags::IS_BYPASS != 0
    }

    /// True if the parameter wraps around at its extremes.
    pub fn is_wrap(&self) -> (b: bool)
        ensures
            b == (self.flags & parameter_flags::IS_WRAP != 0),
    {
        self.flags & parameter_flags::IS_WRAP != 0
    }
}

} // verus!
