//! The host's `IParamValueQueue`: the points of one parameter for one block,
//! as a plugin reads them (input changes) or writes them (output changes).
//!
//! [`ParamValueQueueImpl::refill_from_queue`] lets a host recycle one queue
//! object across blocks; its inline storage holds sixteen points before it
//! spills to the heap.

use vstd::prelude::*;

use crate::constants::K_INVALID_ARGUMENT;
use crate::inline_lists::{
    point_buffer_clear, point_buffer_extend_from_list, point_buffer_get, point_buffer_items,
    point_buffer_len, point_buffer_new, point_buffer_push, point_buffer_with_capacity,
    PointBuffer,
};
use crate::params::{point_item, ParameterPoint, ParameterQueue};
use crate::rt_cell::AudioThreadCell;

verus! {

/// Points held inline before the storage spills to the heap.
pub const INLINE_POINTS: usize = 16;

/// Host-side parameter value queue.
pub struct ParamValueQueueImpl {
    param_id: AudioThreadCell<u32>,
    points: AudioThreadCell<PointBuffer>,
}

impl View for ParamValueQueueImpl {
    type V = (u32, Seq<(i32, u64)>);

    closed spec fn view(&self) -> (u32, Seq<(i32, u64)>) {
        (self.param_id.value(), point_buffer_items(self.points.value()))
    }
}

impl ParamValueQueueImpl {
    /// A queue holding the id and points of `queue`.
    pub fn from_queue(queue: &ParameterQueue) -> (q: ParamValueQueueImpl)
        ensures
            q@ == queue@,
    {
        let n = queue.len();
        let capacity = if n > INLINE_POINTS {
            n
        } else {
            INLINE_POINTS
        };
        let mut points = point_buffer_with_capacity(capacity);
        point_buffer_extend_from_list(&mut points, &queue.points);
        ParamValueQueueImpl {
            param_id: AudioThreadCell::new(queue.param_id),
            points: AudioThreadCell::new(points),
        }
    }

    /// An empty queue for `param_id`.
    pub fn new_empty(param_id: u32) -> (q: ParamValueQueueImpl)
        ensures
            q@ == (param_id, Seq::<(i32, u64)>::empty()),
    {
        ParamValueQueueImpl {
            param_id: AudioThreadCell::new(param_id),
            points: AudioThreadCell::new(point_buffer_new()),
        }
    }

    /// Replace this queue's id and points with those of `queue`, in place.
    pub fn refill_from_queue(&mut self, queue: &ParameterQueue)
        ensures
            final(self)@ == queue@,
    {
        *self.param_id.borrow_mut() = queue.param_id;
        let points = self.points.borrow_mut();
        point_buffer_clear(points);
        point_buffer_extend_from_list(points, &queue.points);
    }

    /// A [`ParameterQueue`] with this queue's id and points.
    pub fn to_queue(&self) -> (q: ParameterQueue)
        ensures
            q@ == self@,
    {
        let mut queue = ParameterQueue::new(self.param_id());
        let points = self.points.borrow();
        let n = point_buffer_len(points);
        let mut i: usize = 0;
        while i < n
            invariant
                n == self@.1.len(),
                *points == self.points.value(),
                i <= n,
                queue@ == (self@.0, self@.1.take(i as int)),
            decreases n - i,
        {
            let p = point_buffer_get(points, i);
            queue.add_point(p.sample_offset, p.value_bits);
            i = i + 1;
            assert(queue@.1 =~= self@.1.take(i as int));
        }
        assert(self@.1.take(n as int) =~= self@.1);
        queue
    }

    /// The parameter id (`IParamValueQueue::getParameterId`).
    pub fn param_id(&self) -> (id: u32)
        ensures
            id == self@.0,
    {
        *self.param_id.borrow()
    }

    /// Number of points.
    pub fn len(&self) -> (n: usize)
        ensures
            n == self@.1.len(),
    {
        point_buffer_len(self.points.borrow())
    }

    /// True if there are no points.
    pub fn is_empty(&self) -> (r: bool)
        ensures
            r == (self@.1.len() == 0),
    {
        point_buffer_len(self.points.borrow()) == 0
    }

    /// Kept for callers that reset the owning thread after a device switch.
    pub fn reset_owner(&self) {
        self.param_id.reset_owner();
        self.points.reset_owner();
    }

    /// `IParamValueQueue::getPointCount`: the number of points as the
    /// interface's `int32`.
    pub fn point_count(&self) -> (n: i32)
        ensures
            n == self@.1.len() as i32,
    {
        point_buffer_len(self.points.borrow()) as i32
    }

    /// `IParamValueQueue::getPoint`: the point at `index`, or
    /// `K_INVALID_ARGUMENT` when `index` is negative or not below the point
    /// count.
    pub fn get_point(&self, index: i32) -> (r: Result<ParameterPoint, i32>)
        ensures
            0 <= index < self@.1.len() as i32 ==> (r matches Ok(p) && point_item(p)
                == self@.1[index as int]),
            !(0 <= index < self@.1.len() as i32) ==> r == Err::<ParameterPoint, i32>(
                K_INVALID_ARGUMENT,
            ),
    {
        let points = self.points.borrow();
        let n = point_buffer_len(points);
        if index < 0 || index >= n as i32 {
            return Err(K_INVALID_ARGUMENT);
        }
        proof {
            assert((n as i32) as int <= n) by (bit_vector)
                requires
                    n as int == n,
            ;
        }
        Ok(point_buffer_get(points, index as usize))
    }

    /// `IParamValueQueue::addPoint`: append a point and return its index.
    pub fn add_point(&mut self, sample_offset: i32, value_bits: u64) -> (index: i32)
        ensures
            final(self)@ == (old(self)@.0, old(self)@.1.push((sample_offset, value_bits))),
            index == (old(self)@.1.len()) as i32,
    {
        let points = self.points.borrow_mut();
        point_buffer_push(points, ParameterPoint { sample_offset, value_bits });
        (point_buffer_len(points) - 1) as i32
    }
}

} // verus!
