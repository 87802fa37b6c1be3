//! What the host's callback objects make of the calls a plugin makes on
//! them: the events they forward to the host (parameter edits, progress,
//! unit changes), the ids they hand out, and the codes they answer with.

use vstd::prelude::*;

use crate::constants::{K_NOT_IMPLEMENTED, K_RESULT_OK};
use crate::helpers::{utf16_text, utf16_to_string};
use crate::info::{editor_size_for_rect, EditorSize, ViewRect};

verus! {

/// Parameter-edit and component notifications from the plugin
/// (`IComponentHandler` v1 to v3 and `IComponentHandlerBusActivation`).
/// An edited value is carried as the bit pattern of its normalized `f64`.
#[derive(Debug, Clone, PartialEq, Eq, Structural)]
pub enum ParameterEditEvent {
    BeginEdit(u32),
    PerformEdit { param_id: u32, value_bits: u64 },
    EndEdit(u32),
    RestartComponent(i32),
    SetDirty(bool),
    RequestOpenEditor,
    StartGroupEdit,
    FinishGroupEdit,
    RequestBusActivation { media_type: i32, direction: i32, index: i32, state: bool },
}

impl ParameterEditEvent {
    /// `IComponentHandler2::setDirty`: any nonzero `TBool` means dirty.
    pub fn set_dirty(state: u8) -> (e: ParameterEditEvent)
        ensures
            e == ParameterEditEvent::SetDirty(state != 0),
    {
        ParameterEditEvent::SetDirty(state != 0)
    }

    /// `IComponentHandlerBusActivation::requestBusActivation`: any nonzero
    /// `TBool` asks for activation.
    pub fn request_bus_activation(media_type: i32, direction: i32, index: i32, state: u8) -> (e:
        ParameterEditEvent)
        ensures
            e == (ParameterEditEvent::RequestBusActivation {
                media_type,
                direction,
                index,
                state: state != 0,
            }),
    {
        ParameterEditEvent::RequestBusActivation { media_type, direction, index, state: state != 0 }
    }
}

/// Long-running progress notifications (`IProgress`), such as sample loading
/// or offline rendering. The progress is carried as the bit pattern of its
/// normalized `f64`.
#[derive(Debug, Clone)]
pub enum ProgressEvent {
    /// A new progress operation has begun; `id` identifies it for its
    /// lifetime, `progress_type` is the raw VST3 `ProgressType`.
    Started { id: u64, progress_type: u32, description: String },
    /// Progress update, normalized to `0.0..=1.0`.
    Updated { id: u64, progress_bits: u64 },
    /// The operation with this id has finished.
    Finished { id: u64 },
}

/// Unit and program-list notifications (`IUnitHandler` v1 and v2).
#[derive(Debug, Clone, Copy, PartialEq, Eq, Structural)]
pub enum UnitEvent {
    /// The plugin selected a different unit.
    UnitSelected(i32),
    /// A program list changed its selected program.
    ProgramListChanged { list_id: i32, program_index: i32 },
    /// The unit-to-bus mapping changed.
    UnitByBusChanged,
}

/// The successor of a 64-bit counter, wrapping at `u64::MAX` like an atomic
/// `fetch_add`.
pub open spec fn wrapping_next(n: u64) -> u64 {
    if n == u64::MAX {
        0
    } else {
        (n + 1) as u64
    }
}

/// The description of a progress operation: empty without a description
/// buffer, otherwise its text up to the first NUL.
pub open spec fn progress_description(units: Option<Seq<u16>>) -> Seq<char> {
    match units {
        None => Seq::empty(),
        Some(u) => utf16_text(u),
    }
}

/// Source of progress-operation ids: 1, 2, 3, ... in the order operations
/// start.
pub struct ProgressIds {
    next: u64,
}

impl ProgressIds {
    /// The id the next operation receives.
    pub closed spec fn next_id(&self) -> u64 {
        self.next
    }

    /// Ids starting at 1.
    pub fn new() -> (p: ProgressIds)
        ensures
            p.next_id() == 1,
    {
        ProgressIds { next: 1 }
    }

    /// `IProgress::start`: take the next id and report the operation's
    /// start with its type and description (the UTF-16 units the plugin
    /// passed before their NUL, or `None` for a null pointer).
    pub fn start(&mut self, progress_type: u32, description: Option<&[u16]>) -> (e: ProgressEvent)
        ensures
            final(self).next_id() == wrapping_next(old(self).next_id()),
            e matches ProgressEvent::Started { id, progress_type: t, description: d } && id == old(
                self,
            ).next_id() && t == progress_type && d@ == progress_description(
                match description {
                    None => None,
                    Some(u) => Some(u@),
                },
            ),
    {
        let id = self.next;
        self.next = if self.next == u64::MAX {
            0
        } else {
            self.next + 1
        };
        let text = match description {
            None => String::new(),
            Some(units) => utf16_to_string(units),
        };
        ProgressEvent::Started { id, progress_type, description: text }
    }
}

/// `IConnectionPoint::notify`: a null message is answered with
/// `K_NOT_IMPLEMENTED`, any other with `K_RESULT_OK`.
pub fn notify_result(message_present: bool) -> (r: i32)
    ensures
        r == (if message_present {
            K_RESULT_OK
        } else {
            K_NOT_IMPLEMENTED
        }),
{
    if message_present {
        K_RESULT_OK
    } else {
        K_NOT_IMPLEMENTED
    }
}

/// Whether a notified message's `"data"` attribute reaches the message
/// callback: `IAttributeList::getBinary` returned `K_RESULT_OK` with a
/// non-null pointer to a nonempty block.
pub fn delivers_binary(get_binary_result: i32, data_present: bool, data_size: u32) -> (b: bool)
    ensures
        b == (get_binary_result == K_RESULT_OK && data_present && data_size > 0),
{
    get_binary_result == K_RESULT_OK && data_present && data_size > 0
}

/// `IPlugFrame::resizeView`: the editor size to report for the requested
/// rectangle, or nothing for a null rectangle. The call itself always
/// answers `K_RESULT_OK`.
pub fn resize_request(new_size: Option<ViewRect>) -> (s: Option<EditorSize>)
    requires
        new_size matches Some(rect) ==> rect.spans_fit(),
    ensures
        match new_size {
            None => s is None,
            Some(rect) => s == Some(
                EditorSize {
                    width: (rect.right - rect.left) as u32,
                    height: (rect.bottom - rect.top) as u32,
                },
            ),
        },
{
    match new_size {
        None => None,
        Some(rect) => Some(editor_size_for_rect(rect)),
    }
}

} // verus!
