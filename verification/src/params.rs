//! Parameter automation types.
//!
//! A [`ParameterChanges`] bundle is the host's side of the
//! `inputParameterChanges` / `outputParameterChanges` fields of
//! `ProcessData`: one [`ParameterQueue`] per parameter, each a series of
//! sample-accurate [`ParameterPoint`]s.
//!
//! A point's normalized value is an `f64` in the VST3 ABI; it is carried here
//! as its IEEE-754 bit pattern (`f64::to_bits`), which the automation logic
//! stores and moves but never inspects.

use vstd::prelude::*;

use crate::inline_lists::{
    point_list_clear, point_list_get, point_list_items, point_list_len, point_list_new,
    point_list_push, queue_list_clear, queue_list_get, queue_list_get_mut, queue_list_items,
    queue_list_len, queue_list_new, queue_list_push, PointList, QueueList,
};

verus! {

/// One automation sample: a normalized value at a frame of the block.
#[derive(Debug, Clone, Copy, PartialEq, Eq, Structural)]
pub struct ParameterPoint {
    /// Frame offset within the processing block.
    pub sample_offset: i32,
    /// Bit pattern of the normalized (0.0 to 1.0) `f64` value.
    pub value_bits: u64,
}

/// A point as a plain pair `(sample_offset, value_bits)`.
pub open spec fn point_item(p: ParameterPoint) -> (i32, u64) {
    (p.sample_offset, p.value_bits)
}

/// Ordered points for a single parameter id within one block.
#[derive(Debug)]
pub struct ParameterQueue {
    /// Parameter id this queue targets.
    pub param_id: u32,
    /// Points in the order they were added (the caller keeps them in
    /// ascending `sample_offset` order).
    pub points: PointList,
}

/// A queue as `(param_id, points)`.
pub open spec fn queue_view(q: ParameterQueue) -> (u32, Seq<(i32, u64)>) {
    (q.param_id, point_list_items(q.points))
}

impl View for ParameterQueue {
    type V = (u32, Seq<(i32, u64)>);

    open spec fn view(&self) -> (u32, Seq<(i32, u64)>) {
        queue_view(*self)
    }
}

/// Index of the first entry of `s` whose key is `key`, or `s.len()` if none.
pub open spec fn key_index<V>(s: Seq<(u32, V)>, key: u32) -> nat
    decreases s.len(),
{
    if s.len() == 0 {
        0
    } else if s[0].0 == key {
        0
    } else {
        1 + key_index(s.drop_first(), key)
    }
}

/// A scan that met no entry with `key` before `i` and stops at `i` found the
/// first one.
pub proof fn lemma_key_index<V>(s: Seq<(u32, V)>, key: u32, i: int)
    requires
        0 <= i <= s.len(),
        forall|k: int| 0 <= k < i ==> s[k].0 != key,
        i == s.len() || s[i].0 == key,
    ensures
        key_index(s, key) == i,
    decreases i,
{
    if i > 0 {
        let t = s.drop_first();
        assert forall|k: int| 0 <= k < i - 1 implies t[k].0 != key by {
            assert(t[k] == s[k + 1]);
        }
        if i - 1 < t.len() {
            assert(t[i - 1] == s[i]);
        }
        lemma_key_index(t, key, i - 1);
    }
}

/// The entry `key_index` designates, when below the length, has the key,
/// and no earlier entry does.
pub proof fn lemma_key_index_props<V>(s: Seq<(u32, V)>, key: u32)
    ensures
        key_index(s, key) <= s.len(),
        key_index(s, key) < s.len() ==> s[key_index(s, key) as int].0 == key,
        forall|k: int| 0 <= k < key_index(s, key) ==> s[k].0 != key,
    decreases s.len(),
{
    if s.len() > 0 && s[0].0 != key {
        let t = s.drop_first();
        lemma_key_index_props(t, key);
        assert forall|k: int| 0 <= k < key_index(s, key) implies s[k].0 != key by {
            if k > 0 {
                assert(s[k] == t[k - 1]);
            }
        }
    }
}

/// The queues after appending point `(offset, bits)` for `id`: into the
/// first queue for `id` if there is one, else into a new queue at the end.
pub open spec fn after_add_change(
    s: Seq<(u32, Seq<(i32, u64)>)>,
    id: u32,
    offset: i32,
    bits: u64,
) -> Seq<(u32, Seq<(i32, u64)>)> {
    let i = key_index(s, id);
    if i < s.len() {
        s.update(i as int, (id, s[i as int].1.push((offset, bits))))
    } else {
        s.push((id, seq![(offset, bits)]))
    }
}

impl Clone for ParameterQueue {
    /// A queue with the same id and the same points.
    fn clone(&self) -> (c: ParameterQueue)
        ensures
            c@ == self@,
    {
        let mut c = ParameterQueue::new(self.param_id);
        let n = point_list_len(&self.points);
        let mut i: usize = 0;
        while i < n
            invariant
                n == self@.1.len(),
                i <= n,
                c@ == (self@.0, self@.1.take(i as int)),
            decreases n - i,
        {
            let p = point_list_get(&self.points, i);
            c.add_point(p.sample_offset, p.value_bits);
            i = i + 1;
            assert(c@.1 =~= self@.1.take(i as int));
        }
        assert(self@.1.take(n as int) =~= self@.1);
        c
    }
}

impl ParameterQueue {
    /// An empty queue targeting `param_id`.
    pub fn new(param_id: u32) -> (q: ParameterQueue)
        ensures
            q@ == (param_id, Seq::<(i32, u64)>::empty()),
    {
        ParameterQueue { param_id, points: point_list_new() }
    }

    /// Append a `(sample_offset, value)` point.
    pub fn add_point(&mut self, sample_offset: i32, value_bits: u64)
        ensures
            final(self)@ == (old(self)@.0, old(self)@.1.push((sample_offset, value_bits))),
    {
        point_list_push(&mut self.points, ParameterPoint { sample_offset, value_bits });
    }

    /// True if this queue has no points.
    pub fn is_empty(&self) -> (r: bool)
        ensures
            r == (self@.1.len() == 0),
    {
        point_list_len(&self.points) == 0
    }

    /// Number of points in the queue.
    pub fn len(&self) -> (n: usize)
        ensures
            n == self@.1.len(),
    {
        point_list_len(&self.points)
    }

    /// The point at `index`.
    pub fn point(&self, index: usize) -> (p: ParameterPoint)
        requires
            index < self@.1.len(),
        ensures
            point_item(p) == self@.1[index as int],
    {
        point_list_get(&self.points, index)
    }

    /// Remove all points.
    pub fn clear(&mut self)
        ensures
            final(self)@ == (old(self)@.0, Seq::<(i32, u64)>::empty()),
    {
        point_list_clear(&mut self.points);
    }
}

/// Queues of parameter automation for one block, one per parameter id.
#[derive(Debug)]
pub struct ParameterChanges {
    /// One queue per parameter; the first sixteen live inline.
    pub queues: QueueList,
}

impl View for ParameterChanges {
    type V = Seq<(u32, Seq<(i32, u64)>)>;

    open spec fn view(&self) -> Seq<(u32, Seq<(i32, u64)>)> {
        queue_list_items(self.queues)
    }
}

impl Default for ParameterChanges {
    fn default() -> (c: ParameterChanges)
        ensures
            c@ == Seq::<(u32, Seq<(i32, u64)>)>::empty(),
    {
        ParameterChanges { queues: queue_list_new() }
    }
}

impl Clone for ParameterChanges {
    /// Changes with the same queues, in the same order.
    fn clone(&self) -> (c: ParameterChanges)
        ensures
            c@ == self@,
    {
        let mut queues = queue_list_new();
        let n = queue_list_len(&self.queues);
        let mut i: usize = 0;
        while i < n
            invariant
                n == self@.len(),
                i <= n,
                queue_list_items(queues) == self@.take(i as int),
            decreases n - i,
        {
            let q = queue_list_get(&self.queues, i).clone();
            queue_list_push(&mut queues, q);
            i = i + 1;
            assert(queue_list_items(queues) =~= self@.take(i as int));
        }
        assert(self@.take(n as int) =~= self@);
        ParameterChanges { queues }
    }
}

impl ParameterChanges {
    /// An empty set of changes.
    pub fn new() -> (c: ParameterChanges)
        ensures
            c@ == Seq::<(u32, Seq<(i32, u64)>)>::empty(),
    {
        ParameterChanges { queues: queue_list_new() }
    }

    /// Index of the first queue for `param_id`, or the number of queues.
    fn find(&self, param_id: u32) -> (i: usize)
        ensures
            i == key_index(self@, param_id),
            i <= self@.len(),
    {
        let n = queue_list_len(&self.queues);
        let mut i: usize = 0;
        while i < n
            invariant
                n == self@.len(),
                i <= n,
                forall|k: int| 0 <= k < i ==> self@[k].0 != param_id,
            ensures
                i <= n,
                forall|k: int| 0 <= k < i ==> self@[k].0 != param_id,
                i == n || self@[i as int].0 == param_id,
            decreases n - i,
        {
            if queue_list_get(&self.queues, i).param_id == param_id {
                break;
            }
            i = i + 1;
        }
        proof {
            lemma_key_index(self@, param_id, i as int);
        }
        i
    }

    /// Append a point to the queue for `param_id`, creating the queue at the
    /// end if there is none yet.
    pub fn add_change(&mut self, param_id: u32, sample_offset: i32, value_bits: u64)
        ensures
            final(self)@ == after_add_change(old(self)@, param_id, sample_offset, value_bits),
    {
        let i = self.find(param_id);
        proof {
            lemma_key_index_props(self@, param_id);
        }
        if i < queue_list_len(&self.queues) {
            let q = queue_list_get_mut(&mut self.queues, i);
            q.add_point(sample_offset, value_bits);
        } else {
            let mut q = ParameterQueue::new(param_id);
            q.add_point(sample_offset, value_bits);
            queue_list_push(&mut self.queues, q);
            proof {
                assert(q@.1 =~= seq![(sample_offset, value_bits)]);
            }
        }
    }

    /// True if no queue holds a point.
    pub fn is_empty(&self) -> (r: bool)
        ensures
            r == (forall|k: int| 0 <= k < self@.len() ==> self@[k].1.len() == 0),
    {
        let n = queue_list_len(&self.queues);
        if n == 0 {
            return true;
        }
        let mut i: usize = 0;
        while i < n
            invariant
                n == self@.len(),
                i <= n,
                forall|k: int| 0 <= k < i ==> self@[k].1.len() == 0,
            decreases n - i,
        {
            if !queue_list_get(&self.queues, i).is_empty() {
                return false;
            }
            i = i + 1;
        }
        true
    }

    /// Number of queues (not points).
    pub fn len(&self) -> (n: usize)
        ensures
            n == self@.len(),
    {
        queue_list_len(&self.queues)
    }

    /// Remove all queues.
    pub fn clear(&mut self)
        ensures
            final(self)@ == Seq::<(u32, Seq<(i32, u64)>)>::empty(),
    {
        queue_list_clear(&mut self.queues);
    }

    /// The first queue for `param_id`, if present.
    pub fn get_queue(&self, param_id: u32) -> (r: Option<&ParameterQueue>)
        ensures
            match r {
                Some(q) => key_index(self@, param_id) < self@.len() && q@ == self@[key_index(
                    self@,
                    param_id,
                ) as int],
                None => key_index(self@, param_id) == self@.len(),
            },
    {
        let i = self.find(param_id);
        if i < queue_list_len(&self.queues) {
            Some(queue_list_get(&self.queues, i))
        } else {
            None
        }
    }

    /// The first queue for `param_id`, mutably, if present; what is left in
    /// it becomes that queue.
    pub fn get_queue_mut(&mut self, param_id: u32) -> (r: Option<&mut ParameterQueue>)
        ensures
            match r {
                Some(q) => {
                    &&& key_index(old(self)@, param_id) < old(self)@.len()
                    &&& q@ == old(self)@[key_index(old(self)@, param_id) as int]
                    &&& final(self)@ == old(self)@.update(
                        key_index(old(self)@, param_id) as int,
                        final(q)@,
                    )
                },
                None => key_index(old(self)@, param_id) == old(self)@.len() && final(self)@ == old(
                    self,
                )@,
            },
    {
        let i = self.find(param_id);
        if i < queue_list_len(&self.queues) {
            Some(queue_list_get_mut(&mut self.queues, i))
        } else {
            None
        }
    }
}

/// After `add_change(id, offset, bits)` the queue that `get_queue(id)` finds
/// ends with the new point, preceded by the points it held before (none if
/// the queue is new); every other queue is unchanged, and a queue is added
/// exactly when none existed for `id`.
pub proof fn lemma_add_change_then_get(
    s: Seq<(u32, Seq<(i32, u64)>)>,
    id: u32,
    offset: i32,
    bits: u64,
)
    ensures
        ({
            let t = after_add_change(s, id, offset, bits);
            let i = key_index(t, id);
            let existed = key_index(s, id) < s.len();
            &&& i < t.len()
            &&& i == key_index(s, id)
            &&& t[i as int].0 == id
            &&& t[i as int].1.last() == (offset, bits)
            &&& t[i as int].1.drop_last() == (if existed {
                s[i as int].1
            } else {
                Seq::<(i32, u64)>::empty()
            })
            &&& t.len() == (if existed { s.len() } else { s.len() + 1 })
            &&& forall|j: int| 0 <= j < s.len() && j != i ==> t[j] == s[j]
        }),
{
    lemma_key_index_props(s, id);
    let t = after_add_change(s, id, offset, bits);
    let i = key_index(s, id);
    if i < s.len() {
        assert forall|k: int| 0 <= k < i implies t[k].0 != id by {
            assert(t[k] == s[k]);
        }
        lemma_key_index(t, id, i as int);
        assert(t[i as int].1.drop_last() =~= s[i as int].1);
    } else {
        assert forall|k: int| 0 <= k < i implies t[k].0 != id by {
            assert(t[k] == s[k]);
        }
        lemma_key_index(t, id, i as int);
        assert(t[i as int].1.drop_last() =~= Seq::<(i32, u64)>::empty());
    }
}

/// Adding a change for one id does not change which queue another id finds.
pub proof fn lemma_add_change_other_id(
    s: Seq<(u32, Seq<(i32, u64)>)>,
    id: u32,
    other: u32,
    offset: i32,
    bits: u64,
)
    requires
        other != id,
        key_index(s, other) < s.len(),
    ensures
        key_index(after_add_change(s, id, offset, bits), other) == key_index(s, other),
        after_add_change(s, id, offset, bits)[key_index(s, other) as int] == s[key_index(
            s,
            other,
        ) as int],
{
    lemma_key_index_props(s, other);
    lemma_key_index_props(s, id);
    let t = after_add_change(s, id, offset, bits);
    let j = key_index(s, other);
    assert forall|k: int| 0 <= k < j implies t[k].0 != other by {
        assert(t[k].0 == s[k].0);
    }
    assert(t[j as int].0 == s[j as int].0);
    lemma_key_index(t, other, j as int);
}

} // verus!
