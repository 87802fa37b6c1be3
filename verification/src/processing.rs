//! The decisions of an active plugin instance: its processing setup, the
//! channel layout it keeps pointer slots for, which codes from the plugin
//! count as success, and what one `process` call hands the plugin and
//! returns to the host.

use vstd::prelude::*;

use crate::constants::{
    K_OFFLINE, K_PREFETCH, K_REALTIME, K_RESULT_FALSE, K_RESULT_OK, K_SAMPLE_32, K_SAMPLE_64,
};
use crate::error::{LoadStage, Vst3Error};
use crate::event_list::{
    events_of_midi, is_stable_sort_by_offset, midi_of_events, EventList,
};
use crate::events::{event_size_ok, expression_event, MidiEvent, NoteExpressionValue};
use crate::inline_lists::{midi_list_items, MidiList};
use crate::param_changes::{merge_queues, ParameterChangesImpl};
use crate::params::ParameterChanges;

verus! {

/// Pointer slots kept per direction even for fewer channels.
pub const MIN_PTR_COUNT: usize = 2;

/// Pointer slots kept for `channels` channels: at least [`MIN_PTR_COUNT`].
pub open spec fn pointer_slots_for(channels: usize) -> usize {
    if channels < MIN_PTR_COUNT {
        MIN_PTR_COUNT
    } else {
        channels
    }
}

/// Pointer slots kept for `channels` channels: at least [`MIN_PTR_COUNT`].
pub fn pointer_slots(channels: usize) -> (n: usize)
    ensures
        n == pointer_slots_for(channels),
{
    if channels < MIN_PTR_COUNT {
        MIN_PTR_COUNT
    } else {
        channels
    }
}

/// How many channel-pointer slots a block fills: one per channel slice, as
/// far as there are slots.
pub fn filled_slots(slices: usize, slots: usize) -> (n: usize)
    ensures
        n == (if slices < slots {
            slices
        } else {
            slots
        }),
{
    if slices < slots {
        slices
    } else {
        slots
    }
}

/// The fields of the SDK's `ProcessSetup`; the sample rate is the bit
/// pattern of its `f64`.
#[derive(Debug, Clone, Copy, PartialEq, Eq, Structural)]
pub struct ProcessSetupFields {
    pub process_mode: i32,
    pub symbolic_sample_size: i32,
    pub max_samples_per_block: i32,
    pub sample_rate_bits: u64,
}

/// Processing configuration of an active instance.
#[derive(Debug, Clone, Copy, PartialEq, Eq, Structural)]
pub struct AudioConfig {
    sample_rate_bits: u64,
    block_size: usize,
    use_f64: bool,
    num_input_channels: usize,
    num_output_channels: usize,
    input_slots: usize,
    output_slots: usize,
}

/// Abstract state of an [`AudioConfig`].
pub struct AudioConfigModel {
    pub sample_rate_bits: u64,
    pub block_size: usize,
    pub use_f64: bool,
    pub num_input_channels: usize,
    pub num_output_channels: usize,
    /// Pointer slots kept for input channels.
    pub input_slots: usize,
    /// Pointer slots kept for output channels.
    pub output_slots: usize,
}

/// The symbolic sample size for 64-bit or 32-bit processing.
pub open spec fn sample_size_for(use_f64: bool) -> i32 {
    if use_f64 {
        K_SAMPLE_64
    } else {
        K_SAMPLE_32
    }
}

/// The setup handed to `IAudioProcessor::setupProcessing`: realtime mode,
/// the sample size, the block size as the interface's `int32`, and the
/// sample rate.
pub open spec fn setup_of(m: AudioConfigModel) -> ProcessSetupFields {
    ProcessSetupFields {
        process_mode: K_REALTIME,
        symbolic_sample_size: sample_size_for(m.use_f64),
        max_samples_per_block: m.block_size as i32,
        sample_rate_bits: m.sample_rate_bits,
    }
}

/// Every setup the host hands a plugin asks for realtime processing
/// (process mode 0, never offline or prefetch), 64-bit samples exactly when
/// 64-bit processing is selected and 32-bit samples otherwise, the
/// configured sample rate, and the configured block size whenever it fits
/// the interface's `int32`.
pub proof fn lemma_setup_is_realtime(m: AudioConfigModel)
    ensures
        setup_of(m).process_mode == K_REALTIME,
        K_REALTIME == 0,
        setup_of(m).process_mode != K_OFFLINE && setup_of(m).process_mode != K_PREFETCH,
        m.use_f64 ==> setup_of(m).symbolic_sample_size == K_SAMPLE_64,
        !m.use_f64 ==> setup_of(m).symbolic_sample_size == K_SAMPLE_32,
        K_SAMPLE_32 != K_SAMPLE_64,
        setup_of(m).sample_rate_bits == m.sample_rate_bits,
        m.block_size <= i32::MAX ==> setup_of(m).max_samples_per_block == m.block_size,
{
}

/// The reason given when 64-bit processing is asked of a plugin without it.
pub open spec fn no_f64_reason() -> Seq<char> {
    "Plugin does not support 64-bit processing"@
}

impl View for AudioConfig {
    type V = AudioConfigModel;

    closed spec fn view(&self) -> AudioConfigModel {
        AudioConfigModel {
            sample_rate_bits: self.sample_rate_bits,
            block_size: self.block_size,
            use_f64: self.use_f64,
            num_input_channels: self.num_input_channels,
            num_output_channels: self.num_output_channels,
            input_slots: self.input_slots,
            output_slots: self.output_slots,
        }
    }
}

impl AudioConfig {
    /// Every direction keeps at least as many pointer slots as channels,
    /// and never fewer than [`MIN_PTR_COUNT`].
    pub open spec fn wf(&self) -> bool {
        &&& self@.input_slots == pointer_slots_for(self@.num_input_channels)
        &&& self@.output_slots == pointer_slots_for(self@.num_output_channels)
    }

    /// The configuration an instance starts with: the plugin's channel
    /// counts, 32-bit processing, and the given rate and block size.
    pub fn new(num_inputs: usize, num_outputs: usize, sample_rate_bits: u64, block_size: usize) -> (c:
        AudioConfig)
        ensures
            c.wf(),
            c@.num_input_channels == num_inputs,
            c@.num_output_channels == num_outputs,
            c@.sample_rate_bits == sample_rate_bits,
            c@.block_size == block_size,
            !c@.use_f64,
    {
        AudioConfig {
            sample_rate_bits,
            block_size,
            use_f64: false,
            num_input_channels: num_inputs,
            num_output_channels: num_outputs,
            input_slots: pointer_slots(num_inputs),
            output_slots: pointer_slots(num_outputs),
        }
    }

    /// Bits of the sample rate in Hz.
    pub fn sample_rate_bits(&self) -> (r: u64)
        ensures
            r == self@.sample_rate_bits,
    {
        self.sample_rate_bits
    }

    /// Maximum block size in samples.
    pub fn block_size(&self) -> (r: usize)
        ensures
            r == self@.block_size,
    {
        self.block_size
    }

    /// True if 64-bit processing is selected.
    pub fn use_f64(&self) -> (r: bool)
        ensures
            r == self@.use_f64,
    {
        self.use_f64
    }

    /// Number of input channels.
    pub fn num_input_channels(&self) -> (r: usize)
        ensures
            r == self@.num_input_channels,
    {
        self.num_input_channels
    }

    /// Number of output channels.
    pub fn num_output_channels(&self) -> (r: usize)
        ensures
            r == self@.num_output_channels,
    {
        self.num_output_channels
    }

    /// Pointer slots kept for input channels.
    pub fn input_slots(&self) -> (r: usize)
        ensures
            r == self@.input_slots,
    {
        self.input_slots
    }

    /// Pointer slots kept for output channels.
    pub fn output_slots(&self) -> (r: usize)
        ensures
            r == self@.output_slots,
    {
        self.output_slots
    }

    /// The `ProcessSetup` for the current configuration.
    pub fn process_setup(&self) -> (s: ProcessSetupFields)
        ensures
            s == setup_of(self@),
            s.process_mode == K_REALTIME,
            s.symbolic_sample_size == (if self@.use_f64 {
                K_SAMPLE_64
            } else {
                K_SAMPLE_32
            }),
            s.sample_rate_bits == self@.sample_rate_bits,
    {
        ProcessSetupFields {
            process_mode: K_REALTIME,
            symbolic_sample_size: if self.use_f64 {
                K_SAMPLE_64
            } else {
                K_SAMPLE_32
            },
            max_samples_per_block: self.block_size as i32,
            sample_rate_bits: self.sample_rate_bits,
        }
    }

    /// Set the sample rate; nothing else changes.
    pub fn set_sample_rate(&mut self, rate_bits: u64)
        ensures
            final(self)@ == (AudioConfigModel { sample_rate_bits: rate_bits, ..old(self)@ }),
    {
        self.sample_rate_bits = rate_bits;
    }

    /// Set the block size; nothing else changes.
    pub fn set_block_size(&mut self, size: usize)
        ensures
            final(self)@ == (AudioConfigModel { block_size: size, ..old(self)@ }),
    {
        self.block_size = size;
    }

    /// Select 64-bit or 32-bit processing. Asking for 64-bit processing of a
    /// plugin that does not support it is refused with `NotSupported` and
    /// changes nothing.
    pub fn set_use_f64(&mut self, use_f64: bool, supports_f64: bool) -> (r: Result<(), Vst3Error>)
        ensures
            use_f64 && !supports_f64 ==> (r matches Err(Vst3Error::NotSupported(msg)) && msg@
                == no_f64_reason()) && final(self)@ == old(self)@,
            !(use_f64 && !supports_f64) ==> r is Ok && final(self)@ == (AudioConfigModel {
                use_f64,
                ..old(self)@
            }),
    {
        if use_f64 && !supports_f64 {
            return Err(Vst3Error::NotSupported("Plugin does not support 64-bit processing".to_owned()));
        }
        self.use_f64 = use_f64;
        Ok(())
    }

    /// Take the input channel count the plugin reports after bus
    /// activation (`None` when it reports none). Returns true when the count
    /// changed, in which case the input pointer slots were resized to match.
    pub fn sync_input_channels(&mut self, reported: Option<usize>) -> (changed: bool)
        requires
            old(self).wf(),
        ensures
            final(self).wf(),
            changed == (reported matches Some(ch) && ch != old(self)@.num_input_channels),
            changed ==> final(self)@ == (AudioConfigModel {
                num_input_channels: reported->0,
                input_slots: pointer_slots_for(reported->0),
                ..old(self)@
            }),
            !changed ==> final(self)@ == old(self)@,
    {
        match reported {
            Some(ch) => {
                if ch != self.num_input_channels {
                    self.num_input_channels = ch;
                    self.input_slots = pointer_slots(ch);
                    true
                } else {
                    false
                }
            },
            None => false,
        }
    }

    /// Take the output channel count the plugin reports after bus
    /// activation (`None` when it reports none). Returns true when the count
    /// changed, in which case the output pointer slots were resized to match.
    pub fn sync_output_channels(&mut self, reported: Option<usize>) -> (changed: bool)
        requires
            old(self).wf(),
        ensures
            final(self).wf(),
            changed == (reported matches Some(ch) && ch != old(self)@.num_output_channels),
            changed ==> final(self)@ == (AudioConfigModel {
                num_output_channels: reported->0,
                output_slots: pointer_slots_for(reported->0),
                ..old(self)@
            }),
            !changed ==> final(self)@ == old(self)@,
    {
        match reported {
            Some(ch) => {
                if ch != self.num_output_channels {
                    self.num_output_channels = ch;
                    self.output_slots = pointer_slots(ch);
                    true
                } else {
                    false
                }
            },
            None => false,
        }
    }
}

/// Codes a plugin may answer lifecycle calls with without failing them:
/// `K_RESULT_OK` and `K_RESULT_FALSE`.
pub open spec fn accepted_result(result: i32) -> bool {
    result == K_RESULT_OK || result == K_RESULT_FALSE
}

/// The outcome of a lifecycle call (`setupProcessing`, `setActive`,
/// `setProcessing`) at `stage`: success for an accepted code, otherwise a
/// plugin error at that stage carrying the code.
pub fn check_lifecycle_result(result: i32, stage: LoadStage) -> (r: Result<(), Vst3Error>)
    ensures
        r is Ok <==> accepted_result(result),
        r is Ok <==> (result == 0 || result == 1),
        r matches Err(e) ==> e == (Vst3Error::PluginError { stage, code: result }),
{
    if result != K_RESULT_OK && result != K_RESULT_FALSE {
        Err(Vst3Error::PluginError { stage, code: result })
    } else {
        Ok(())
    }
}

/// True if buffers of the given symbolic sample size can be processed:
/// 32-bit always, 64-bit only by a plugin that supports it.
pub fn can_process(symbolic_sample_size: i32, supports_f64: bool) -> (b: bool)
    ensures
        b == (symbolic_sample_size != K_SAMPLE_64 || supports_f64),
{
    symbolic_sample_size != K_SAMPLE_64 || supports_f64
}

/// Whether a `process` call reaches the plugin: the sample type must be
/// processable and the block nonempty.
pub fn should_process(processable: bool, num_samples: usize) -> (b: bool)
    ensures
        b == (processable && num_samples > 0),
{
    processable && num_samples > 0
}

/// Frames per channel of an audio block: the length of the first output
/// channel, or of the first input channel when there are no outputs.
pub fn block_length(first_output_len: Option<usize>, first_input_len: Option<usize>) -> (n: usize)
    requires
        first_output_len is Some || first_input_len is Some,
    ensures
        n == match first_output_len {
            Some(len) => len,
            None => first_input_len->0,
        },
{
    match first_output_len {
        Some(len) => len,
        None => match first_input_len {
            Some(len) => len,
            None => 0,
        },
    }
}

/// Load the input event list for the upcoming block: cleared when there
/// are no MIDI events and no note expressions, otherwise filled with both
/// and ordered stably by frame offset.
pub fn stage_input_events(
    events: &mut EventList,
    midi_events: &[MidiEvent],
    note_expressions: &[NoteExpressionValue],
)
    ensures
        midi_events@.len() == 0 && note_expressions@.len() == 0 ==> final(events)@ == Seq::<
            crate::events::Vst3Event,
        >::empty(),
        !(midi_events@.len() == 0 && note_expressions@.len() == 0) ==> is_stable_sort_by_offset(
            final(events)@,
            events_of_midi(midi_events@) + note_expressions@.map_values(
                |v: NoteExpressionValue| expression_event(v),
            ),
        ),
{
    if midi_events.len() == 0 && note_expressions.len() == 0 {
        events.clear();
    } else {
        events.update_from_midi_and_expression(midi_events, note_expressions);
    }
}

/// What one `process` call returns to the host: the MIDI events and the
/// parameter changes the plugin produced.
#[derive(Debug)]
pub struct ProcessOutput {
    pub midi_events: MidiList,
    pub parameter_changes: ParameterChanges,
}

/// The output of a call that produced nothing.
pub fn empty_process_output() -> (o: ProcessOutput)
    ensures
        midi_list_items(o.midi_events) == Seq::<MidiEvent>::empty(),
        o.parameter_changes@ == Seq::<(u32, Seq<(i32, u64)>)>::empty(),
{
    ProcessOutput { midi_events: MidiList::new(), parameter_changes: ParameterChanges::new() }
}

/// True if no queue of the changes holds a point.
pub open spec fn no_points(changes: Seq<(u32, Seq<(i32, u64)>)>) -> bool {
    forall|k: int| 0 <= k < changes.len() ==> changes[k].1.len() == 0
}

/// The parameter changes handed to the plugin as input: a queue object
/// per queue of `changes`, or none when no queue holds a point.
pub fn input_parameter_changes(changes: Option<&ParameterChanges>) -> (r: Option<
    ParameterChangesImpl,
>)
    ensures
        match changes {
            Some(c) if !no_points(c@) => r matches Some(imp) && imp@ == c@,
            _ => r is None,
        },
{
    match changes {
        Some(c) => {
            if c.is_empty() {
                None
            } else {
                Some(ParameterChangesImpl::from_changes(c))
            }
        },
        None => None,
    }
}

/// What a `process` call returns once the plugin answered `result`: on
/// `K_RESULT_OK`, the MIDI form of the output events (`levels[i]` being the
/// level of event `i` scaled to 0..=127) and the gathered output parameter
/// changes; on any other code, nothing (the host then silences the outputs).
pub fn process_output(
    result: i32,
    output_events: &EventList,
    levels: &[u8],
    output_changes: &ParameterChangesImpl,
) -> (o: ProcessOutput)
    requires
        levels@.len() == output_events@.len(),
        forall|i: int| 0 <= i < levels@.len() ==> levels@[i] < 128,
        forall|i: int| 0 <= i < output_events@.len() ==> event_size_ok(#[trigger] output_events@[i]),
    ensures
        result == K_RESULT_OK ==> midi_list_items(o.midi_events) == midi_of_events(
            output_events@,
            levels@,
        ) && o.parameter_changes@ == merge_queues(output_changes@),
        result != K_RESULT_OK ==> midi_list_items(o.midi_events) == Seq::<MidiEvent>::empty()
            && o.parameter_changes@ == Seq::<(u32, Seq<(i32, u64)>)>::empty(),
{
    if result != K_RESULT_OK {
        return empty_process_output();
    }
    ProcessOutput {
        midi_events: output_events.to_midi_events(levels),
        parameter_changes: output_changes.to_changes(),
    }
}

} // verus!
