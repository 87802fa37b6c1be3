//! The host's `IDataExchangeHandler` (VST 3.7): block queues through which
//! a plugin's audio processor hands blocks of data to its edit controller.
//!
//! A queue holds a pool of equally sized blocks. Locking takes a block from
//! the pool and gives it a fresh id; freeing returns it to the pool and, when
//! asked, yields a copy of its contents for delivery to the controller.
//! Queues are filed under the user context id they were opened with, and
//! that id is what later calls name them by.

use std::collections::HashMap;
use vstd::prelude::*;

use crate::constants::{K_INVALID_ARGUMENT, K_RESULT_OK};

verus! {

broadcast use vstd::std_specs::hash::group_hash_axioms;

/// A block handed to the controller: the queue it came from and its bytes.
#[derive(Debug)]
pub struct DataBlock {
    pub user_context_id: u32,
    pub data: Vec<u8>,
}

impl Clone for DataBlock {
    /// A block with the same queue id and the same bytes.
    fn clone(&self) -> (c: DataBlock)
        ensures
            c.user_context_id == self.user_context_id,
            c.data@ == self.data@,
    {
        let data = self.data.clone();
        assert(data@ =~= self.data@);
        DataBlock { user_context_id: self.user_context_id, data }
    }
}

/// Abstract state of one block queue.
pub struct QueueModel {
    pub block_size: u32,
    /// Blocks available for locking; the last one is locked next.
    pub free: Seq<Seq<u8>>,
    /// Id the next locked block receives.
    pub next_block_id: u32,
    /// Locked blocks by id.
    pub locked: Map<u32, Seq<u8>>,
}

/// Abstract state of the handler.
pub struct HandlerModel {
    /// Id the next opened queue reports.
    pub next_queue_id: u32,
    /// Queues by the user context id they were opened with.
    pub queues: Map<u32, QueueModel>,
}

/// `n` zero bytes.
pub open spec fn zero_block(n: nat) -> Seq<u8> {
    Seq::new(n, |i: int| 0u8)
}

/// A freshly opened queue: `num_blocks` zeroed blocks of `block_size`
/// bytes, none locked.
pub open spec fn fresh_queue(block_size: u32, num_blocks: u32) -> QueueModel {
    QueueModel {
        block_size,
        free: Seq::new(num_blocks as nat, |i: int| zero_block(block_size as nat)),
        next_block_id: 0,
        locked: Map::empty(),
    }
}

/// Every locked block of the queue carries an id below the next one handed
/// out, so a fresh id is never that of a block still locked.
pub open spec fn queue_wf(q: QueueModel) -> bool {
    forall|id: u32| #[trigger] q.locked.contains_key(id) ==> id < q.next_block_id
}

/// Every queue of the handler is well formed.
pub open spec fn handler_wf(m: HandlerModel) -> bool {
    forall|k: u32| #[trigger] m.queues.contains_key(k) ==> queue_wf(m.queues[k])
}

/// The 32-bit successor, wrapping at `u32::MAX` like an atomic counter.
pub open spec fn wrapping_succ(n: u32) -> u32 {
    if n == u32::MAX {
        0
    } else {
        (n + 1) as u32
    }
}

struct Queue {
    block_size: u32,
    blocks: Vec<Vec<u8>>,
    next_block_id: u32,
    locked_blocks: HashMap<u32, Vec<u8>>,
}

spec fn queue_model(q: Queue) -> QueueModel {
    QueueModel {
        block_size: q.block_size,
        free: q.blocks@.map_values(|b: Vec<u8>| b@),
        next_block_id: q.next_block_id,
        locked: q.locked_blocks@.map_values(|b: Vec<u8>| b@),
    }
}

/// `n` zero bytes.
fn zeroed(n: u32) -> (v: Vec<u8>)
    ensures
        v@ == zero_block(n as nat),
{
    let mut v: Vec<u8> = Vec::new();
    let mut i: u32 = 0;
    while i < n
        invariant
            i <= n,
            v@ == zero_block(i as nat),
        decreases n - i,
    {
        v.push(0);
        i = i + 1;
        assert(v@ =~= zero_block(i as nat));
    }
    v
}

impl Queue {
    /// A queue of `num_blocks` zeroed blocks of `block_size` bytes.
    fn new(block_size: u32, num_blocks: u32) -> (q: Queue)
        ensures
            queue_model(q) == fresh_queue(block_size, num_blocks),
    {
        let mut blocks: Vec<Vec<u8>> = Vec::new();
        let mut i: u32 = 0;
        while i < num_blocks
            invariant
                i <= num_blocks,
                blocks@.len() == i,
                forall|j: int| 0 <= j < i ==> (#[trigger] blocks@[j])@ == zero_block(block_size as nat),
            decreases num_blocks - i,
        {
            blocks.push(zeroed(block_size));
            i = i + 1;
        }
        assert(blocks@.map_values(|b: Vec<u8>| b@) =~= Seq::new(
            num_blocks as nat,
            |j: int| zero_block(block_size as nat),
        ));
        let q = Queue { block_size, blocks, next_block_id: 0, locked_blocks: HashMap::new() };
        assert(queue_model(q).locked =~= Map::<u32, Seq<u8>>::empty());
        q
    }
}

/// Host-side data exchange handler.
pub struct DataExchangeHandler {
    next_queue_id: u32,
    queues: HashMap<u32, Queue>,
}

impl View for DataExchangeHandler {
    type V = HandlerModel;

    closed spec fn view(&self) -> HandlerModel {
        HandlerModel {
            next_queue_id: self.next_queue_id,
            queues: self.queues@.map_values(|q: Queue| queue_model(q)),
        }
    }
}

impl DataExchangeHandler {
    /// A handler without queues whose first queue reports id 1.
    pub fn new() -> (h: DataExchangeHandler)
        ensures
            h@.next_queue_id == 1,
            h@.queues == Map::<u32, QueueModel>::empty(),
            handler_wf(h@),
    {
        let h = DataExchangeHandler { next_queue_id: 1, queues: HashMap::new() };
        assert(h@.queues =~= Map::<u32, QueueModel>::empty());
        h
    }

    /// `IDataExchangeHandler::openQueue`: file a fresh queue of `num_blocks`
    /// zeroed blocks of `block_size` bytes under `user_context_id`
    /// (replacing any queue filed there) and return the queue id to report,
    /// drawn from a wrapping counter.
    pub fn open_queue(&mut self, block_size: u32, num_blocks: u32, user_context_id: u32) -> (id: u32)
        requires
            handler_wf(old(self)@),
        ensures
            id == old(self)@.next_queue_id,
            final(self)@.next_queue_id == wrapping_succ(old(self)@.next_queue_id),
            final(self)@.queues == old(self)@.queues.insert(
                user_context_id,
                fresh_queue(block_size, num_blocks),
            ),
            handler_wf(final(self)@),
    {
        let id = self.next_queue_id;
        self.next_queue_id = if self.next_queue_id == u32::MAX {
            0
        } else {
            self.next_queue_id + 1
        };
        let queue = Queue::new(block_size, num_blocks);
        self.queues.insert(user_context_id, queue);
        assert(self@.queues =~= old(self)@.queues.insert(
            user_context_id,
            fresh_queue(block_size, num_blocks),
        ));
        id
    }

    /// `IDataExchangeHandler::closeQueue`: drop the queue filed under
    /// `queue_id`, if any. Always succeeds.
    pub fn close_queue(&mut self, queue_id: u32) -> (r: i32)
        requires
            handler_wf(old(self)@),
        ensures
            r == K_RESULT_OK,
            final(self)@.next_queue_id == old(self)@.next_queue_id,
            final(self)@.queues == old(self)@.queues.remove(queue_id),
            handler_wf(final(self)@),
    {
        self.queues.remove(&queue_id);
        assert(self@.queues =~= old(self)@.queues.remove(queue_id));
        K_RESULT_OK
    }

    /// The id the next block locked in the queue filed under `queue_id`
    /// receives, or `None` when there is no such queue.
    pub fn next_block_id(&self, queue_id: u32) -> (r: Option<u32>)
        ensures
            self@.queues.contains_key(queue_id) ==> r == Some(self@.queues[queue_id].next_block_id),
            !self@.queues.contains_key(queue_id) ==> r is None,
    {
        match self.queues.get(&queue_id) {
            Some(q) => Some(q.next_block_id),
            None => None,
        }
    }

    /// `IDataExchangeHandler::lockBlock`: take the last free block of the
    /// queue filed under `queue_id`, give it the queue's next block id, and
    /// return that id with the block size. `K_INVALID_ARGUMENT` when there is
    /// no such queue or it has no free block.
    pub fn lock_block(&mut self, queue_id: u32) -> (r: Result<(u32, u32), i32>)
        requires
            handler_wf(old(self)@),
            old(self)@.queues.contains_key(queue_id) ==> old(self)@.queues[queue_id].next_block_id
                < u32::MAX,
        ensures
            handler_wf(final(self)@),
            final(self)@.next_queue_id == old(self)@.next_queue_id,
            ({
                let q = old(self)@.queues[queue_id];
                if old(self)@.queues.contains_key(queue_id) && q.free.len() > 0 {
                    &&& r == Ok::<(u32, u32), i32>((q.next_block_id, q.block_size))
                    &&& !q.locked.contains_key(q.next_block_id)
                    &&& final(self)@.queues == old(self)@.queues.insert(
                        queue_id,
                        QueueModel {
                            block_size: q.block_size,
                            free: q.free.drop_last(),
                            next_block_id: (q.next_block_id + 1) as u32,
                            locked: q.locked.insert(q.next_block_id, q.free.last()),
                        },
                    )
                } else {
                    r == Err::<(u32, u32), i32>(K_INVALID_ARGUMENT) && final(self)@ == old(self)@
                }
            }),
    {
        let mut queue = match self.queues.remove(&queue_id) {
            Some(q) => q,
            None => {
                assert(self@.queues =~= old(self)@.queues);
                return Err(K_INVALID_ARGUMENT);
            },
        };
        let ghost qm = queue_model(queue);
        assert(qm == old(self)@.queues[queue_id]);
        match queue.blocks.pop() {
            Some(data) => {
                let block_id = queue.next_block_id;
                queue.next_block_id = queue.next_block_id + 1;
                let size = queue.block_size;
                queue.locked_blocks.insert(block_id, data);
                proof {
                    assert(queue_model(queue).free =~= qm.free.drop_last());
                    assert(queue_model(queue).locked =~= qm.locked.insert(block_id, qm.free.last()));
                }
                self.queues.insert(queue_id, queue);
                proof {
                    assert(self@.queues =~= old(self)@.queues.insert(
                        queue_id,
                        QueueModel {
                            block_size: qm.block_size,
                            free: qm.free.drop_last(),
                            next_block_id: (qm.next_block_id + 1) as u32,
                            locked: qm.locked.insert(qm.next_block_id, qm.free.last()),
                        },
                    ));
                }
                Ok((block_id, size))
            },
            None => {
                self.queues.insert(queue_id, queue);
                assert(self@.queues =~= old(self)@.queues);
                Err(K_INVALID_ARGUMENT)
            },
        }
    }

    /// `IDataExchangeHandler::freeBlock`: return the block locked under
    /// `block_id` to the free pool of the queue filed under `queue_id`; when
    /// `send_to_controller` is set, also return a copy of its bytes tagged
    /// with `queue_id`, for delivery to the controller. `K_INVALID_ARGUMENT`
    /// when there is no such queue or no such locked block.
    pub fn free_block(&mut self, queue_id: u32, block_id: u32, send_to_controller: bool) -> (r: Result<Option<DataBlock>, i32>)
        requires
            handler_wf(old(self)@),
        ensures
            handler_wf(final(self)@),
            final(self)@.next_queue_id == old(self)@.next_queue_id,
            ({
                let q = old(self)@.queues[queue_id];
                if old(self)@.queues.contains_key(queue_id) && q.locked.contains_key(block_id) {
                    &&& r is Ok
                    &&& (r matches Ok(sent) && (send_to_controller <==> sent is Some) && (
                    sent matches Some(b) ==> b.user_context_id == queue_id && b.data@ == q.locked[block_id]))
                    &&& final(self)@.queues == old(self)@.queues.insert(
                        queue_id,
                        QueueModel {
                            block_size: q.block_size,
                            free: q.free.push(q.locked[block_id]),
                            next_block_id: q.next_block_id,
                            locked: q.locked.remove(block_id),
                        },
                    )
                } else {
                    r == Err::<Option<DataBlock>, i32>(K_INVALID_ARGUMENT) && final(self)@ == old(
                        self,
                    )@
                }
            }),
    {
        let mut queue = match self.queues.remove(&queue_id) {
            Some(q) => q,
            None => {
                assert(self@.queues =~= old(self)@.queues);
                return Err(K_INVALID_ARGUMENT);
            },
        };
        let ghost qm = queue_model(queue);
        let ghost old_locked = queue.locked_blocks@;
        assert(qm == old(self)@.queues[queue_id]);
        match queue.locked_blocks.remove(&block_id) {
            Some(data) => {
                let sent = if send_to_controller {
                    let copy = data.clone();
                    assert(copy@ =~= data@);
                    Some(DataBlock { user_context_id: queue_id, data: copy })
                } else {
                    None
                };
                queue.blocks.push(data);
                proof {
                    assert(queue_model(queue).free =~= qm.free.push(qm.locked[block_id]));
                    assert(queue_model(queue).locked =~= qm.locked.remove(block_id));
                }
                self.queues.insert(queue_id, queue);
                proof {
                    assert(self@.queues =~= old(self)@.queues.insert(
                        queue_id,
                        QueueModel {
                            block_size: qm.block_size,
                            free: qm.free.push(qm.locked[block_id]),
                            next_block_id: qm.next_block_id,
                            locked: qm.locked.remove(block_id),
                        },
                    ));
                }
                Ok(sent)
            },
            None => {
                assert(queue.locked_blocks@ =~= old_locked);
                assert(queue_model(queue).locked =~= qm.locked);
                assert(queue_model(queue).free =~= qm.free);
                self.queues.insert(queue_id, queue);
                assert(self@.queues =~= old(self)@.queues);
                Err(K_INVALID_ARGUMENT)
            },
        }
    }
}

impl DataExchangeHandler {
    /// The bytes of the block locked under `block_id` in the queue filed
    /// under `queue_id`, for the plugin to fill while the block is locked;
    /// what is left in them becomes the block's contents. `None` when there
    /// is no such locked block.
    pub fn locked_block_data(&mut self, queue_id: u32, block_id: u32) -> (r: Option<&mut Vec<u8>>)
        requires
            handler_wf(old(self)@),
        ensures
            ({
                let q = old(self)@.queues[queue_id];
                if old(self)@.queues.contains_key(queue_id) && q.locked.contains_key(block_id) {
                    r matches Some(d) && d@ == q.locked[block_id] && final(self)@ == (HandlerModel {
                        next_queue_id: old(self)@.next_queue_id,
                        queues: old(self)@.queues.insert(
                            queue_id,
                            QueueModel { locked: q.locked.insert(block_id, final(d)@), ..q },
                        ),
                    })
                } else {
                    r is None && final(self)@ == old(self)@
                }
            }),
            handler_wf(final(self)@),
    {
        let ghost m0 = self.queues@;
        match self.queues.entry(queue_id) {
            std::collections::hash_map::Entry::Occupied(entry) => {
                let queue = entry.into_mut();
                let ghost q0 = *queue;
                proof {
                    lemma_queue_views_insert(m0, queue_id, *final(queue));
                }
                match queue.locked_blocks.entry(block_id) {
                    std::collections::hash_map::Entry::Occupied(block) => {
                        let d = block.into_mut();
                        proof {
                            lemma_locked_views_insert(q0.locked_blocks@, block_id, *final(d));
                        }
                        Some(d)
                    },
                    std::collections::hash_map::Entry::Vacant(vacant) => {
                        let _ = vacant.into_key();
                        proof {
                            lemma_remove_absent(q0.locked_blocks@, block_id);
                            assert(queue_model(q0) == old(self)@.queues[queue_id]);
                            lemma_insert_present(old(self)@.queues, queue_id);
                        }
                        None
                    },
                }
            },
            std::collections::hash_map::Entry::Vacant(vacant) => {
                let _ = vacant.into_key();
                proof {
                    lemma_remove_absent(m0, queue_id);
                }
                None
            },
        }
    }
}

proof fn lemma_queue_views_insert(m: Map<u32, Queue>, k: u32, v: Queue)
    ensures
        m.insert(k, v).map_values(|q: Queue| queue_model(q)) =~= m.map_values(
            |q: Queue| queue_model(q),
        ).insert(k, queue_model(v)),
{
}

proof fn lemma_locked_views_insert(m: Map<u32, Vec<u8>>, k: u32, v: Vec<u8>)
    ensures
        m.insert(k, v).map_values(|b: Vec<u8>| b@) =~= m.map_values(|b: Vec<u8>| b@).insert(k, v@),
{
}

proof fn lemma_insert_present<K, V>(m: Map<K, V>, k: K)
    requires
        m.contains_key(k),
    ensures
        m.insert(k, m[k]) =~= m,
{
}

proof fn lemma_remove_absent<K, V>(m: Map<K, V>, k: K)
    requires
        !m.contains_key(k),
    ensures
        m.remove(k) =~= m,
{
}

/// Locking a block and freeing it again puts the queue's pool and locked set
/// back as they were; only the next block id has moved on.
pub proof fn lemma_lock_then_free(q: QueueModel)
    requires
        q.free.len() > 0,
        queue_wf(q),
    ensures
        ({
            let id = q.next_block_id;
            let locked = QueueModel {
                block_size: q.block_size,
                free: q.free.drop_last(),
                next_block_id: (id + 1) as u32,
                locked: q.locked.insert(id, q.free.last()),
            };
            let freed = QueueModel {
                block_size: locked.block_size,
                free: locked.free.push(locked.locked[id]),
                next_block_id: locked.next_block_id,
                locked: locked.locked.remove(id),
            };
            &&& freed.free == q.free
            &&& freed.locked == q.locked
        }),
{
    let id = q.next_block_id;
    assert(!q.locked.contains_key(id));
    assert(q.free.drop_last().push(q.free.last()) =~= q.free);
    assert(q.locked.insert(id, q.free.last()).remove(id) =~= q.locked);
}

} // verus!
