//! The host's `IParameterChanges`: the queue objects of one block.
//!
//! [`ParameterChangesImpl::refill_from_changes`] lets a host reuse one
//! changes object across blocks: it keeps the queue objects it already has,
//! refills them in place, grows only when a block carries more queues than
//! any before, and drops the surplus of a larger previous block.

use vstd::prelude::*;

use crate::param_queue::ParamValueQueueImpl;
use crate::params::{after_add_change, ParameterChanges};
use crate::inline_lists::{queue_list_get, queue_list_len};
use crate::rt_cell::AudioThreadCell;

verus! {

/// Queue objects reserved up front, so typical blocks never grow the list.
pub const RESERVED_QUEUES: usize = 32;

/// The changes after adding every point of `pts`, in order, for `id`.
pub open spec fn add_points(
    c: Seq<(u32, Seq<(i32, u64)>)>,
    id: u32,
    pts: Seq<(i32, u64)>,
) -> Seq<(u32, Seq<(i32, u64)>)>
    decreases pts.len(),
{
    if pts.len() == 0 {
        c
    } else {
        after_add_change(add_points(c, id, pts.drop_last()), id, pts.last().0, pts.last().1)
    }
}

/// The changes built by adding, queue after queue, every point of `qs`:
/// queues with the same id merge into the first, queues without points
/// vanish.
pub open spec fn merge_queues(qs: Seq<(u32, Seq<(i32, u64)>)>) -> Seq<(u32, Seq<(i32, u64)>)>
    decreases qs.len(),
{
    if qs.len() == 0 {
        Seq::empty()
    } else {
        add_points(merge_queues(qs.drop_last()), qs.last().0, qs.last().1)
    }
}

/// Host-side parameter changes object.
pub struct ParameterChangesImpl {
    queues: AudioThreadCell<Vec<ParamValueQueueImpl>>,
}

/// The views of a list of queue objects.
pub open spec fn queue_views(v: Seq<ParamValueQueueImpl>) -> Seq<(u32, Seq<(i32, u64)>)> {
    v.map_values(|q: ParamValueQueueImpl| q@)
}

impl View for ParameterChangesImpl {
    type V = Seq<(u32, Seq<(i32, u64)>)>;

    closed spec fn view(&self) -> Seq<(u32, Seq<(i32, u64)>)> {
        queue_views(self.queues.value()@)
    }
}

impl ParameterChangesImpl {
    /// A changes object with one queue object per queue of `changes`.
    pub fn from_changes(changes: &ParameterChanges) -> (c: ParameterChangesImpl)
        ensures
            c@ == changes@,
    {
        let n = queue_list_len(&changes.queues);
        let capacity = if n > RESERVED_QUEUES {
            n
        } else {
            RESERVED_QUEUES
        };
        let mut queues: Vec<ParamValueQueueImpl> = Vec::with_capacity(capacity);
        let mut i: usize = 0;
        while i < n
            invariant
                n == changes@.len(),
                i <= n,
                queues@.len() == i,
                queue_views(queues@) == changes@.take(i as int),
            decreases n - i,
        {
            let built = ParamValueQueueImpl::from_queue(queue_list_get(&changes.queues, i));
            assert(built@ == changes@[i as int]);
            let ghost before = queues@;
            queues.push(built);
            assert(queues@ == before.push(built));
            i = i + 1;
            assert forall|k: int| 0 <= k < i implies #[trigger] queue_views(queues@)[k] == changes@.take(
                i as int,
            )[k] by {
                if k < i - 1 {
                    assert(queues@[k] == before[k]);
                    assert(queue_views(before)[k] == changes@.take(i - 1)[k]);
                }
            }
            assert(queue_views(queues@) =~= changes@.take(i as int));
        }
        assert(changes@.take(n as int) =~= changes@);
        ParameterChangesImpl { queues: AudioThreadCell::new(queues) }
    }

    /// A changes object without queues.
    pub fn new_empty() -> (c: ParameterChangesImpl)
        ensures
            c@ == Seq::<(u32, Seq<(i32, u64)>)>::empty(),
    {
        let queues: Vec<ParamValueQueueImpl> = Vec::with_capacity(RESERVED_QUEUES);
        proof {
            assert(queue_views(queues@) =~= Seq::<(u32, Seq<(i32, u64)>)>::empty());
        }
        ParameterChangesImpl { queues: AudioThreadCell::new(queues) }
    }

    /// Refill from `changes` in place: reuse the existing queue objects,
    /// append fresh ones if `changes` has more queues, drop the surplus if
    /// it has fewer.
    pub fn refill_from_changes(&mut self, changes: &ParameterChanges)
        ensures
            final(self)@ == changes@,
    {
        let n = queue_list_len(&changes.queues);
        let queues = self.queues.borrow_mut();
        while queues.len() < n
            invariant
                n == changes@.len(),
            decreases n - queues@.len(),
        {
            queues.push(ParamValueQueueImpl::new_empty(0));
        }
        let ghost grown = queues@;
        let mut i: usize = 0;
        while i < n
            invariant
                n == changes@.len(),
                i <= n,
                n <= queues@.len(),
                queues@.len() == grown.len(),
                forall|k: int| 0 <= k < i ==> (#[trigger] queues@[k])@ == changes@[k],
            decreases n - i,
        {
            let q = queue_list_get(&changes.queues, i);
            queues[i].refill_from_queue(q);
            i = i + 1;
        }
        if queues.len() > n {
            queues.truncate(n);
        }
        assert(queue_views(queues@) =~= changes@);
    }

    /// Remove all queue objects.
    pub fn clear_in_place(&mut self)
        ensures
            final(self)@ == Seq::<(u32, Seq<(i32, u64)>)>::empty(),
    {
        let queues = self.queues.borrow_mut();
        queues.clear();
        assert(queue_views(queues@) =~= Seq::<(u32, Seq<(i32, u64)>)>::empty());
    }

    /// Gather the points of every queue object into a [`ParameterChanges`],
    /// adding them queue by queue, point by point, with
    /// [`ParameterChanges::add_change`].
    pub fn to_changes(&self) -> (c: ParameterChanges)
        ensures
            c@ == merge_queues(self@),
    {
        let mut changes = ParameterChanges::new();
        let queues = self.queues.borrow();
        let n = queues.len();
        let mut i: usize = 0;
        while i < n
            invariant
                n == self@.len(),
                queues@ == self.queues.value()@,
                i <= n,
                changes@ == merge_queues(self@.take(i as int)),
            decreases n - i,
        {
            let q = queues[i].to_queue();
            let m = q.len();
            let mut j: usize = 0;
            while j < m
                invariant
                    n == self@.len(),
                    i < n,
                    m == q@.1.len(),
                    q@ == self@[i as int],
                    j <= m,
                    changes@ == add_points(merge_queues(self@.take(i as int)), q@.0, q@.1.take(j as int)),
                decreases m - j,
            {
                let p = q.point(j);
                changes.add_change(q.param_id, p.sample_offset, p.value_bits);
                j = j + 1;
                assert(q@.1.take(j as int).drop_last() =~= q@.1.take(j - 1));
            }
            assert(q@.1.take(m as int) =~= q@.1);
            i = i + 1;
            assert(self@.take(i as int).drop_last() =~= self@.take(i - 1));
        }
        assert(self@.take(n as int) =~= self@);
        changes
    }

    /// Number of queue objects.
    pub fn len(&self) -> (n: usize)
        ensures
            n == self@.len(),
    {
        self.queues.borrow().len()
    }

    /// True if there are no queue objects.
    pub fn is_empty(&self) -> (r: bool)
        ensures
            r == (self@.len() == 0),
    {
        self.queues.borrow().len() == 0
    }

    /// Kept for callers that reset the owning thread after a device switch;
    /// also resets every queue object.
    pub fn reset_owner(&self) {
        self.queues.reset_owner();
        let queues = self.queues.borrow();
        let mut i: usize = 0;
        while i < queues.len()
            decreases queues@.len() - i,
        {
            queues[i].reset_owner();
            i = i + 1;
        }
    }

    /// `IParameterChanges::getParameterCount`: the number of queue objects
    /// as the interface's `int32`.
    pub fn parameter_count(&self) -> (n: i32)
        ensures
            n == self@.len() as i32,
    {
        self.queues.borrow().len() as i32
    }

    /// `IParameterChanges::getParameterData`: the queue object at `index`,
    /// or `None` when `index` is negative or not below the queue count.
    pub fn parameter_data(&mut self, index: i32) -> (r: Option<&mut ParamValueQueueImpl>)
        ensures
            0 <= index < old(self)@.len() as i32 ==> (r matches Some(q) && q@ == old(self)@[index as int]
                && final(self)@ == old(self)@.update(index as int, final(q)@)),
            !(0 <= index < old(self)@.len() as i32) ==> r is None && final(self)@ == old(self)@,
    {
        let queues = self.queues.borrow_mut();
        let n = queues.len();
        if index < 0 || index >= n as i32 {
            return None;
        }
        proof {
            assert((n as i32) as int <= n) by (bit_vector)
                requires
                    n as int == n,
            ;
        }
        let q = &mut queues[index as usize];
        Some(q)
    }

    /// `IParameterChanges::addParameterData`: append an empty queue object for
    /// `id` and return its index.
    pub fn add_parameter_data(&mut self, id: u32) -> (index: i32)
        ensures
            final(self)@ == old(self)@.push((id, Seq::<(i32, u64)>::empty())),
            index == old(self)@.len() as i32,
    {
        let queues = self.queues.borrow_mut();
        queues.push(ParamValueQueueImpl::new_empty(id));
        assert(queue_views(queues@) =~= queue_views(old(self).queues.value()@).push(
            (id, Seq::<(i32, u64)>::empty()),
        ));
        (queues.len() - 1) as i32
    }
}

/// No two queues share a parameter id.
pub open spec fn distinct_ids(s: Seq<(u32, Seq<(i32, u64)>)>) -> bool {
    forall|i: int, j: int| 0 <= i < j < s.len() ==> s[i].0 != s[j].0
}

/// Every queue holds at least one point.
pub open spec fn all_nonempty(s: Seq<(u32, Seq<(i32, u64)>)>) -> bool {
    forall|i: int| 0 <= i < s.len() ==> s[i].1.len() > 0
}

/// Adding the points of `pts` for an id that no queue has yet appends one
/// queue holding exactly those points.
proof fn lemma_add_points_fresh(p: Seq<(u32, Seq<(i32, u64)>)>, id: u32, pts: Seq<(i32, u64)>)
    requires
        forall|k: int| 0 <= k < p.len() ==> p[k].0 != id,
        pts.len() > 0,
    ensures
        add_points(p, id, pts) == p.push((id, pts)),
    decreases pts.len(),
{
    let x = pts.last();
    let before = pts.drop_last();
    if before.len() == 0 {
        crate::params::lemma_key_index(p, id, p.len() as int);
        assert(add_points(p, id, before) == p);
        assert(seq![x] =~= pts);
    } else {
        lemma_add_points_fresh(p, id, before);
        let q = p.push((id, before));
        assert forall|k: int| 0 <= k < p.len() implies q[k].0 != id by {
            assert(q[k] == p[k]);
        }
        crate::params::lemma_key_index(q, id, p.len() as int);
        assert(before.push(x) =~= pts);
        assert(q.update(p.len() as int, (id, before.push(x))) =~= p.push((id, pts)));
    }
}

/// Gathering queues whose ids are distinct and which all hold points gives
/// them back unchanged: handing a [`ParameterChanges`] to a plugin through
/// [`ParameterChangesImpl::from_changes`] and collecting it again with
/// [`ParameterChangesImpl::to_changes`] loses and reorders nothing.
pub proof fn lemma_merge_queues_round_trip(s: Seq<(u32, Seq<(i32, u64)>)>)
    requires
        distinct_ids(s),
        all_nonempty(s),
    ensures
        merge_queues(s) == s,
    decreases s.len(),
{
    if s.len() > 0 {
        let p = s.drop_last();
        lemma_merge_queues_round_trip(p);
        assert forall|k: int| 0 <= k < p.len() implies p[k].0 != s.last().0 by {
            assert(p[k] == s[k]);
        }
        lemma_add_points_fresh(p, s.last().0, s.last().1);
        assert(p.push(s.last()) =~= s);
    }
}

/// Adding a change keeps the queues' ids distinct and every queue
/// nonempty: the shape [`ParameterChanges::add_change`] builds is kept by
/// every further change.
pub proof fn lemma_add_change_keeps_shape(
    s: Seq<(u32, Seq<(i32, u64)>)>,
    id: u32,
    offset: i32,
    bits: u64,
)
    requires
        distinct_ids(s),
    ensures
        distinct_ids(after_add_change(s, id, offset, bits)),
        all_nonempty(s) ==> all_nonempty(after_add_change(s, id, offset, bits)),
{
    crate::params::lemma_key_index_props(s, id);
    let t = after_add_change(s, id, offset, bits);
    let i = crate::params::key_index(s, id);
    if i < s.len() {
        assert forall|a: int, b: int| 0 <= a < b < t.len() implies t[a].0 != t[b].0 by {
            assert(t[a].0 == s[a].0);
            assert(t[b].0 == s[b].0);
        }
    } else {
        assert forall|a: int, b: int| 0 <= a < b < t.len() implies t[a].0 != t[b].0 by {
            assert(t[a] == s[a]);
            if b < s.len() {
                assert(t[b] == s[b]);
            }
        }
    }
}

/// The points of the first queue for `p`, or none when no queue has that id.
pub open spec fn points_of(s: Seq<(u32, Seq<(i32, u64)>)>, p: u32) -> Seq<(i32, u64)> {
    let i = crate::params::key_index(s, p);
    if i < s.len() {
        s[i as int].1
    } else {
        Seq::empty()
    }
}

/// The points of every queue whose id is `p`, queue after queue.
pub open spec fn points_for(qs: Seq<(u32, Seq<(i32, u64)>)>, p: u32) -> Seq<(i32, u64)>
    decreases qs.len(),
{
    if qs.len() == 0 {
        Seq::empty()
    } else {
        points_for(qs.drop_last(), p) + (if qs.last().0 == p {
            qs.last().1
        } else {
            Seq::<(i32, u64)>::empty()
        })
    }
}

/// Number of points over all queues.
pub open spec fn total_points(s: Seq<(u32, Seq<(i32, u64)>)>) -> nat
    decreases s.len(),
{
    if s.len() == 0 {
        0
    } else {
        total_points(s.drop_last()) + s.last().1.len()
    }
}

/// Replacing queue `i` by one with a point more adds one point in total.
proof fn lemma_total_points_update(
    s: Seq<(u32, Seq<(i32, u64)>)>,
    i: int,
    q: (u32, Seq<(i32, u64)>),
)
    requires
        0 <= i < s.len(),
        q.1.len() == s[i].1.len() + 1,
    ensures
        total_points(s.update(i, q)) == total_points(s) + 1,
    decreases s.len(),
{
    let t = s.update(i, q);
    if i == s.len() - 1 {
        assert(t.drop_last() =~= s.drop_last());
    } else {
        assert(t.drop_last() =~= s.drop_last().update(i, q));
        lemma_total_points_update(s.drop_last(), i, q);
    }
}

/// Adding a change appends its point to the queue for its id and to no
/// other, and adds exactly one point in total.
pub proof fn lemma_add_change_points(
    s: Seq<(u32, Seq<(i32, u64)>)>,
    id: u32,
    offset: i32,
    bits: u64,
)
    ensures
        forall|p: u32|
            #![trigger points_of(after_add_change(s, id, offset, bits), p)]
            points_of(after_add_change(s, id, offset, bits), p) == points_of(s, p) + (if p == id {
                seq![(offset, bits)]
            } else {
                Seq::<(i32, u64)>::empty()
            }),
        total_points(after_add_change(s, id, offset, bits)) == total_points(s) + 1,
{
    let t = after_add_change(s, id, offset, bits);
    crate::params::lemma_add_change_then_get(s, id, offset, bits);
    crate::params::lemma_key_index_props(s, id);
    let i = crate::params::key_index(s, id);
    assert forall|p: u32| #![trigger points_of(t, p)]
        points_of(t, p) == points_of(s, p) + (if p == id {
            seq![(offset, bits)]
        } else {
            Seq::<(i32, u64)>::empty()
        }) by {
        if p == id {
            let pts = t[i as int].1;
            assert(pts =~= pts.drop_last().push(pts.last()));
            assert(points_of(t, p) =~= points_of(s, p) + seq![(offset, bits)]);
        } else {
            crate::params::lemma_key_index_props(s, p);
            if crate::params::key_index(s, p) < s.len() {
                crate::params::lemma_add_change_other_id(s, id, p, offset, bits);
            } else {
                assert forall|k: int| 0 <= k < t.len() implies t[k].0 != p by {
                    if k < s.len() {
                        assert(t[k].0 == s[k].0);
                    }
                }
                crate::params::lemma_key_index(t, p, t.len() as int);
            }
            assert(points_of(t, p) =~= points_of(s, p) + Seq::<(i32, u64)>::empty());
        }
    }
    if i < s.len() {
        lemma_total_points_update(s, i as int, (id, s[i as int].1.push((offset, bits))));
    } else {
        assert(t.drop_last() =~= s);
    }
}

/// Adding a run of points for one id appends them, in order, to the queue
/// for that id and to no other, adds exactly that many points, and keeps the
/// queues' ids distinct and every queue nonempty.
proof fn lemma_add_points_points(
    s: Seq<(u32, Seq<(i32, u64)>)>,
    id: u32,
    pts: Seq<(i32, u64)>,
)
    requires
        distinct_ids(s),
        all_nonempty(s),
    ensures
        forall|p: u32|
            #![trigger points_of(add_points(s, id, pts), p)]
            points_of(add_points(s, id, pts), p) == points_of(s, p) + (if p == id {
                pts
            } else {
                Seq::<(i32, u64)>::empty()
            }),
        total_points(add_points(s, id, pts)) == total_points(s) + pts.len(),
        distinct_ids(add_points(s, id, pts)),
        all_nonempty(add_points(s, id, pts)),
    decreases pts.len(),
{
    if pts.len() == 0 {
        assert forall|p: u32| #![trigger points_of(add_points(s, id, pts), p)]
            points_of(add_points(s, id, pts), p) == points_of(s, p) + (if p == id {
                pts
            } else {
                Seq::<(i32, u64)>::empty()
            }) by {
            assert(points_of(s, p) + pts =~= points_of(s, p));
            assert(points_of(s, p) + Seq::<(i32, u64)>::empty() =~= points_of(s, p));
        }
    } else {
        let before = pts.drop_last();
        let x = pts.last();
        lemma_add_points_points(s, id, before);
        let m = add_points(s, id, before);
        lemma_add_change_points(m, id, x.0, x.1);
        lemma_add_change_keeps_shape(m, id, x.0, x.1);
        let t = add_points(s, id, pts);
        assert(t == after_add_change(m, id, x.0, x.1));
        assert forall|p: u32| #![trigger points_of(add_points(s, id, pts), p)]
            points_of(add_points(s, id, pts), p) == points_of(s, p) + (if p == id {
                pts
            } else {
                Seq::<(i32, u64)>::empty()
            }) by {
            assert(points_of(t, p) == points_of(m, p) + (if p == id {
                seq![x]
            } else {
                Seq::<(i32, u64)>::empty()
            }));
            if p == id {
                assert(before.push(x) =~= pts);
                assert(points_of(s, p) + before + seq![x] =~= points_of(s, p) + pts);
            } else {
                assert(points_of(s, p) + Seq::<(i32, u64)>::empty() + Seq::<(i32, u64)>::empty()
                    =~= points_of(s, p) + Seq::<(i32, u64)>::empty());
            }
        }
    }
}

/// What [`ParameterChangesImpl::to_changes`] gathers from any queue objects:
/// one queue per parameter id that has points, with distinct ids and no
/// empty queue; the queue for an id holds the points of every queue object
/// with that id, queue object after queue object, in their order; an id
/// whose queue objects hold no points gets no queue; and no point is lost
/// or added.
pub proof fn lemma_merge_queues_gathers(qs: Seq<(u32, Seq<(i32, u64)>)>)
    ensures
        distinct_ids(merge_queues(qs)),
        all_nonempty(merge_queues(qs)),
        forall|p: u32|
            #![trigger points_of(merge_queues(qs), p)]
            points_of(merge_queues(qs), p) == points_for(qs, p),
        forall|p: u32|
            #![trigger crate::params::key_index(merge_queues(qs), p)]
            (crate::params::key_index(merge_queues(qs), p) < merge_queues(qs).len()) == (points_for(
                qs,
                p,
            ).len() > 0),
        total_points(merge_queues(qs)) == total_points(qs),
    decreases qs.len(),
{
    let m = merge_queues(qs);
    if qs.len() == 0 {
        assert forall|p: u32| #![trigger points_of(merge_queues(qs), p)]
            points_of(merge_queues(qs), p) == points_for(qs, p) by {
            crate::params::lemma_key_index(m, p, 0);
        }
        assert forall|p: u32| #![trigger crate::params::key_index(merge_queues(qs), p)]
            (crate::params::key_index(merge_queues(qs), p) < merge_queues(qs).len()) == (points_for(
                qs,
                p,
            ).len() > 0) by {
            crate::params::lemma_key_index(m, p, 0);
        }
    } else {
        let rest = qs.drop_last();
        let (id, pts) = qs.last();
        lemma_merge_queues_gathers(rest);
        let r = merge_queues(rest);
        lemma_add_points_points(r, id, pts);
        assert(m == add_points(r, id, pts));
        assert forall|p: u32| #![trigger points_of(merge_queues(qs), p)]
            points_of(merge_queues(qs), p) == points_for(qs, p) by {
            assert(points_of(r, p) == points_for(rest, p));
        }
        assert forall|p: u32| #![trigger crate::params::key_index(merge_queues(qs), p)]
            (crate::params::key_index(merge_queues(qs), p) < merge_queues(qs).len()) == (points_for(
                qs,
                p,
            ).len() > 0) by {
            crate::params::lemma_key_index_props(m, p);
            assert(points_of(m, p) == points_for(qs, p));
            if crate::params::key_index(m, p) < m.len() {
                assert(m[crate::params::key_index(m, p) as int].1.len() > 0);
            }
        }
    }
}

/// The parameter ids of the queues, in order.
pub open spec fn ids_of(s: Seq<(u32, Seq<(i32, u64)>)>) -> Seq<u32> {
    s.map_values(|q: (u32, Seq<(i32, u64)>)| q.0)
}

/// The ids of the queue objects that hold points, each once, in the order
/// in which a queue object with points first carries it.
pub open spec fn first_appearance_ids(qs: Seq<(u32, Seq<(i32, u64)>)>) -> Seq<u32>
    decreases qs.len(),
{
    if qs.len() == 0 {
        Seq::empty()
    } else {
        let r = first_appearance_ids(qs.drop_last());
        if qs.last().1.len() > 0 && !r.contains(qs.last().0) {
            r.push(qs.last().0)
        } else {
            r
        }
    }
}

/// A queue for `id` is found exactly when `id` is among the queues' ids.
proof fn lemma_key_index_contains(s: Seq<(u32, Seq<(i32, u64)>)>, id: u32)
    ensures
        (crate::params::key_index(s, id) < s.len()) == ids_of(s).contains(id),
{
    crate::params::lemma_key_index_props(s, id);
    let i = crate::params::key_index(s, id);
    if i < s.len() {
        assert(ids_of(s)[i as int] == id);
    } else {
        assert forall|k: int| 0 <= k < ids_of(s).len() implies ids_of(s)[k] != id by {
            assert(ids_of(s)[k] == s[k].0);
        }
    }
}

/// Adding a change keeps the ids as they were when a queue for its id
/// exists, and otherwise appends its id.
proof fn lemma_add_change_ids(s: Seq<(u32, Seq<(i32, u64)>)>, id: u32, offset: i32, bits: u64)
    ensures
        ids_of(after_add_change(s, id, offset, bits)) == (if ids_of(s).contains(id) {
            ids_of(s)
        } else {
            ids_of(s).push(id)
        }),
{
    lemma_key_index_contains(s, id);
    crate::params::lemma_key_index_props(s, id);
    let t = after_add_change(s, id, offset, bits);
    if ids_of(s).contains(id) {
        assert(ids_of(t) =~= ids_of(s));
    } else {
        assert(ids_of(t) =~= ids_of(s).push(id));
    }
}

/// Adding a run of points for an id keeps the ids as they were when the
/// run is empty or a queue for the id exists, and otherwise appends the id.
proof fn lemma_add_points_ids(s: Seq<(u32, Seq<(i32, u64)>)>, id: u32, pts: Seq<(i32, u64)>)
    ensures
        ids_of(add_points(s, id, pts)) == (if pts.len() == 0 || ids_of(s).contains(id) {
            ids_of(s)
        } else {
            ids_of(s).push(id)
        }),
    decreases pts.len(),
{
    if pts.len() > 0 {
        let before = pts.drop_last();
        let x = pts.last();
        lemma_add_points_ids(s, id, before);
        let m = add_points(s, id, before);
        lemma_add_change_ids(m, id, x.0, x.1);
        if before.len() > 0 && !ids_of(s).contains(id) {
            assert(ids_of(m)[ids_of(s).len() as int] == id);
        }
    }
}

/// [`ParameterChangesImpl::to_changes`] lists the ids in the order in which
/// a queue object with points first carries each of them.
pub proof fn lemma_merge_queues_id_order(qs: Seq<(u32, Seq<(i32, u64)>)>)
    ensures
        ids_of(merge_queues(qs)) == first_appearance_ids(qs),
    decreases qs.len(),
{
    if qs.len() == 0 {
        assert(ids_of(merge_queues(qs)) =~= first_appearance_ids(qs));
    } else {
        let rest = qs.drop_last();
        lemma_merge_queues_id_order(rest);
        lemma_add_points_ids(merge_queues(rest), qs.last().0, qs.last().1);
    }
}

} // verus!
