//! The `smallvec` collections that hold parameter points and queues inline.
//!
//! Each collection is a field of a struct whose contents are named by an
//! uninterpreted function over plain values; the functions below are the
//! only operations the verified code performs on them, and each states what
//! the `SmallVec` method it calls does to those contents.
//!
//! The `SmallVec` is held in a private field of an opaque struct rather than
//! declared to Verus as an outside type: Verus refuses a type specification
//! for `SmallVec<A: Array>`, since it cannot resolve the `Array` bound
//! ("cannot find trait"). The opaque struct carries the same names and
//! operations that such a declaration would.

use smallvec::SmallVec;
use vstd::prelude::*;

use crate::events::{MidiEvent, NoteExpressionValue};
use crate::params::{point_item, queue_view, ParameterPoint, ParameterQueue};

verus! {

/// Points of a [`ParameterQueue`] (eight inline before spilling to the heap).
#[verifier::external_body]
#[derive(Debug)]
pub struct PointList {
    inner: SmallVec<[ParameterPoint; 8]>,
}

/// Points of a queue object handed to a plugin (sixteen inline).
#[verifier::external_body]
#[derive(Debug)]
pub struct PointBuffer {
    inner: SmallVec<[ParameterPoint; 16]>,
}

/// Queues of a [`crate::params::ParameterChanges`] (sixteen inline).
#[verifier::external_body]
#[derive(Debug)]
pub struct QueueList {
    inner: SmallVec<[ParameterQueue; 16]>,
}

/// MIDI events gathered from a plugin's output (sixty-four inline).
#[verifier::external_body]
#[derive(Debug)]
pub struct MidiList {
    inner: SmallVec<[MidiEvent; 64]>,
}

/// Note-expression values gathered from an event list (sixteen inline).
#[verifier::external_body]
#[derive(Debug)]
pub struct ExpressionList {
    inner: SmallVec<[NoteExpressionValue; 16]>,
}

/// The events a [`MidiList`] holds, in order.
pub uninterp spec fn midi_list_items(l: MidiList) -> Seq<MidiEvent>;

/// The values an [`ExpressionList`] holds, in order.
pub uninterp spec fn expression_list_items(l: ExpressionList) -> Seq<NoteExpressionValue>;

/// The points a [`PointList`] holds, in order, as `(sample_offset, value_bits)`.
pub uninterp spec fn point_list_items(l: PointList) -> Seq<(i32, u64)>;

/// The points a [`PointBuffer`] holds, in order, as `(sample_offset, value_bits)`.
pub uninterp spec fn point_buffer_items(b: PointBuffer) -> Seq<(i32, u64)>;

/// The queues a [`QueueList`] holds, in order, as `(param_id, points)`.
pub uninterp spec fn queue_list_items(l: QueueList) -> Seq<(u32, Seq<(i32, u64)>)>;

/// Calls `SmallVec::new`: an empty list.
#[verifier::external_body]
pub(crate) fn point_list_new() -> (l: PointList)
    ensures
        point_list_items(l) == Seq::<(i32, u64)>::empty(),
{
    PointList { inner: SmallVec::new() }
}

/// Calls `SmallVec::push`: appends `p` at the end.
#[verifier::external_body]
pub(crate) fn point_list_push(l: &mut PointList, p: ParameterPoint)
    ensures
        point_list_items(*final(l)) == point_list_items(*old(l)).push(point_item(p)),
{
    l.inner.push(p)
}

/// Calls `SmallVec::len`: the number of points held.
#[verifier::external_body]
pub(crate) fn point_list_len(l: &PointList) -> (n: usize)
    ensures
        n == point_list_items(*l).len(),
{
    l.inner.len()
}

/// Indexes the list (`Index` on the `SmallVec`): the point at `i`.
#[verifier::external_body]
pub(crate) fn point_list_get(l: &PointList, i: usize) -> (p: ParameterPoint)
    requires
        i < point_list_items(*l).len(),
    ensures
        point_item(p) == point_list_items(*l)[i as int],
{
    l.inner[i]
}

/// Calls `SmallVec::clear`: removes every point.
#[verifier::external_body]
pub(crate) fn point_list_clear(l: &mut PointList)
    ensures
        point_list_items(*final(l)) == Seq::<(i32, u64)>::empty(),
{
    l.inner.clear()
}

/// Calls `SmallVec::new`: an empty buffer.
#[verifier::external_body]
pub(crate) fn point_buffer_new() -> (b: PointBuffer)
    ensures
        point_buffer_items(b) == Seq::<(i32, u64)>::empty(),
{
    PointBuffer { inner: SmallVec::new() }
}

/// Calls `SmallVec::with_capacity`: an empty buffer with room for `n`
/// points before it reallocates.
#[verifier::external_body]
pub(crate) fn point_buffer_with_capacity(n: usize) -> (b: PointBuffer)
    ensures
        point_buffer_items(b) == Seq::<(i32, u64)>::empty(),
{
    PointBuffer { inner: SmallVec::with_capacity(n) }
}

/// Calls `SmallVec::push`: appends `p` at the end.
#[verifier::external_body]
pub(crate) fn point_buffer_push(b: &mut PointBuffer, p: ParameterPoint)
    ensures
        point_buffer_items(*final(b)) == point_buffer_items(*old(b)).push(point_item(p)),
{
    b.inner.push(p)
}

/// Calls `SmallVec::len`: the number of points held.
#[verifier::external_body]
pub(crate) fn point_buffer_len(b: &PointBuffer) -> (n: usize)
    ensures
        n == point_buffer_items(*b).len(),
{
    b.inner.len()
}

/// Indexes the buffer (`Index` on the `SmallVec`): the point at `i`.
#[verifier::external_body]
pub(crate) fn point_buffer_get(b: &PointBuffer, i: usize) -> (p: ParameterPoint)
    requires
        i < point_buffer_items(*b).len(),
    ensures
        point_item(p) == point_buffer_items(*b)[i as int],
{
    b.inner[i]
}

/// Calls `SmallVec::clear`: removes every point.
#[verifier::external_body]
pub(crate) fn point_buffer_clear(b: &mut PointBuffer)
    ensures
        point_buffer_items(*final(b)) == Seq::<(i32, u64)>::empty(),
{
    b.inner.clear()
}

/// Calls `SmallVec::extend_from_slice` with the points of `src`: appends
/// them, in order, at the end.
#[verifier::external_body]
pub(crate) fn point_buffer_extend_from_list(b: &mut PointBuffer, src: &PointList)
    ensures
        point_buffer_items(*final(b)) == point_buffer_items(*old(b)) + point_list_items(*src),
{
    b.inner.extend_from_slice(&src.inner)
}

/// Calls `SmallVec::new`: an empty list of queues.
#[verifier::external_body]
pub(crate) fn queue_list_new() -> (l: QueueList)
    ensures
        queue_list_items(l) == Seq::<(u32, Seq<(i32, u64)>)>::empty(),
{
    QueueList { inner: SmallVec::new() }
}

/// Calls `SmallVec::push`: appends `q` at the end.
#[verifier::external_body]
pub(crate) fn queue_list_push(l: &mut QueueList, q: ParameterQueue)
    ensures
        queue_list_items(*final(l)) == queue_list_items(*old(l)).push(queue_view(q)),
{
    l.inner.push(q)
}

/// Calls `SmallVec::len`: the number of queues held.
#[verifier::external_body]
pub(crate) fn queue_list_len(l: &QueueList) -> (n: usize)
    ensures
        n == queue_list_items(*l).len(),
{
    l.inner.len()
}

/// Indexes the list (`Index` on the `SmallVec`): the queue at `i`.
#[verifier::external_body]
pub(crate) fn queue_list_get(l: &QueueList, i: usize) -> (q: &ParameterQueue)
    requires
        i < queue_list_items(*l).len(),
    ensures
        queue_view(*q) == queue_list_items(*l)[i as int],
{
    &l.inner[i]
}

/// Indexes the list mutably (`IndexMut` on the `SmallVec`): the queue at
/// `i`; what is left in the returned place becomes the list's `i`-th queue.
#[verifier::external_body]
pub(crate) fn queue_list_get_mut(l: &mut QueueList, i: usize) -> (q: &mut ParameterQueue)
    requires
        i < queue_list_items(*old(l)).len(),
    ensures
        queue_view(*q) == queue_list_items(*old(l))[i as int],
        queue_list_items(*final(l)) == queue_list_items(*old(l)).update(
            i as int,
            queue_view(*final(q)),
        ),
{
    &mut l.inner[i]
}

/// Calls `SmallVec::clear`: removes every queue.
#[verifier::external_body]
pub(crate) fn queue_list_clear(l: &mut QueueList)
    ensures
        queue_list_items(*final(l)) == Seq::<(u32, Seq<(i32, u64)>)>::empty(),
{
    l.inner.clear()
}

/// Calls `SmallVec::new`: an empty list.
#[verifier::external_body]
pub(crate) fn midi_list_new() -> (l: MidiList)
    ensures
        midi_list_items(l) == Seq::<MidiEvent>::empty(),
{
    MidiList { inner: SmallVec::new() }
}

/// Calls `SmallVec::push`: appends `e` at the end.
#[verifier::external_body]
pub(crate) fn midi_list_push(l: &mut MidiList, e: MidiEvent)
    ensures
        midi_list_items(*final(l)) == midi_list_items(*old(l)).push(e),
{
    l.inner.push(e)
}

/// Calls `SmallVec::len`: the number of events held.
#[verifier::external_body]
pub(crate) fn midi_list_len(l: &MidiList) -> (n: usize)
    ensures
        n == midi_list_items(*l).len(),
{
    l.inner.len()
}

/// Indexes the list (`Index` on the `SmallVec`): the event at `i`.
#[verifier::external_body]
pub(crate) fn midi_list_get(l: &MidiList, i: usize) -> (e: MidiEvent)
    requires
        i < midi_list_items(*l).len(),
    ensures
        e == midi_list_items(*l)[i as int],
{
    l.inner[i]
}

/// Calls `SmallVec::new`: an empty list.
#[verifier::external_body]
pub(crate) fn expression_list_new() -> (l: ExpressionList)
    ensures
        expression_list_items(l) == Seq::<NoteExpressionValue>::empty(),
{
    ExpressionList { inner: SmallVec::new() }
}

/// Calls `SmallVec::push`: appends `v` at the end.
#[verifier::external_body]
pub(crate) fn expression_list_push(l: &mut ExpressionList, v: NoteExpressionValue)
    ensures
        expression_list_items(*final(l)) == expression_list_items(*old(l)).push(v),
{
    l.inner.push(v)
}

/// Calls `SmallVec::len`: the number of values held.
#[verifier::external_body]
pub(crate) fn expression_list_len(l: &ExpressionList) -> (n: usize)
    ensures
        n == expression_list_items(*l).len(),
{
    l.inner.len()
}

/// Indexes the list (`Index` on the `SmallVec`): the value at `i`.
#[verifier::external_body]
pub(crate) fn expression_list_get(l: &ExpressionList, i: usize) -> (v: NoteExpressionValue)
    requires
        i < expression_list_items(*l).len(),
    ensures
        v == expression_list_items(*l)[i as int],
{
    l.inner[i]
}

impl PointList {
    /// Number of points held.
    pub fn len(&self) -> (n: usize)
        ensures
            n == point_list_items(*self).len(),
    {
        point_list_len(self)
    }

    /// True if no point is held.
    pub fn is_empty(&self) -> (r: bool)
        ensures
            r == (point_list_items(*self).len() == 0),
    {
        point_list_len(self) == 0
    }

    /// The point at `index`.
    pub fn get(&self, index: usize) -> (p: ParameterPoint)
        requires
            index < point_list_items(*self).len(),
        ensures
            point_item(p) == point_list_items(*self)[index as int],
    {
        point_list_get(self, index)
    }
}

impl MidiList {
    /// An empty list.
    pub fn new() -> (l: MidiList)
        ensures
            midi_list_items(l) == Seq::<MidiEvent>::empty(),
    {
        midi_list_new()
    }

    /// Number of events held.
    pub fn len(&self) -> (n: usize)
        ensures
            n == midi_list_items(*self).len(),
    {
        midi_list_len(self)
    }

    /// True if no event is held.
    pub fn is_empty(&self) -> (r: bool)
        ensures
            r == (midi_list_items(*self).len() == 0),
    {
        midi_list_len(self) == 0
    }

    /// The event at `index`.
    pub fn get(&self, index: usize) -> (e: MidiEvent)
        requires
            index < midi_list_items(*self).len(),
        ensures
            e == midi_list_items(*self)[index as int],
    {
        midi_list_get(self, index)
    }
}

impl ExpressionList {
    /// Number of values held.
    pub fn len(&self) -> (n: usize)
        ensures
            n == expression_list_items(*self).len(),
    {
        expression_list_len(self)
    }

    /// True if no value is held.
    pub fn is_empty(&self) -> (r: bool)
        ensures
            r == (expression_list_items(*self).len() == 0),
    {
        expression_list_len(self) == 0
    }

    /// The value at `index`.
    pub fn get(&self, index: usize) -> (v: NoteExpressionValue)
        requires
            index < expression_list_items(*self).len(),
        ensures
            v == expression_list_items(*self)[index as int],
    {
        expression_list_get(self, index)
    }
}

} // verus!
