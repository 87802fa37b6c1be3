//! In-memory `IBStream`: a byte buffer with a read/write cursor, used to hand
//! plugin state to the host and back.
//!
//! Positions follow the semantics of a cursor over a growable byte vector:
//! the cursor may stand past the end of the data; reading there yields
//! nothing, writing there first fills the gap with zero bytes.

use vstd::prelude::*;

use crate::constants::{K_IB_SEEK_CUR, K_IB_SEEK_END, K_IB_SEEK_SET, K_INVALID_ARGUMENT};

verus! {

/// Abstract state of a [`BStream`]: its bytes and its cursor position.
pub struct StreamModel {
    pub bytes: Seq<u8>,
    pub pos: nat,
}

/// Number of bytes a read of `n` bytes delivers from `m`.
pub open spec fn read_len(m: StreamModel, n: nat) -> nat {
    if m.pos >= m.bytes.len() {
        0
    } else if n <= m.bytes.len() - m.pos {
        n
    } else {
        (m.bytes.len() - m.pos) as nat
    }
}

/// The bytes a read of `n` bytes delivers from `m`.
pub open spec fn read_bytes(m: StreamModel, n: nat) -> Seq<u8> {
    if m.pos >= m.bytes.len() {
        Seq::empty()
    } else {
        m.bytes.subrange(m.pos as int, (m.pos + read_len(m, n)) as int)
    }
}

/// The stream after a read of `n` bytes.
pub open spec fn after_read(m: StreamModel, n: nat) -> StreamModel {
    StreamModel { bytes: m.bytes, pos: m.pos + read_len(m, n) }
}

/// Contents after writing `buf` at `pos` into `old`: the gap between the old
/// end and `pos`, if any, is zero-filled; bytes outside the written range keep
/// their value.
pub open spec fn written_bytes(old: Seq<u8>, pos: nat, buf: Seq<u8>) -> Seq<u8> {
    let end: int = (pos + buf.len()) as int;
    let new_len: int = if end > old.len() { end } else { old.len() as int };
    Seq::new(
        new_len as nat,
        |i: int|
            if pos <= i < end {
                buf[i - pos]
            } else if i < old.len() {
                old[i]
            } else {
                0u8
            },
    )
}

/// The stream after writing `buf` at its cursor.
pub open spec fn after_write(m: StreamModel, buf: Seq<u8>) -> StreamModel {
    StreamModel { bytes: written_bytes(m.bytes, m.pos, buf), pos: m.pos + buf.len() }
}

/// The cursor position a seek moves to, or `None` when the seek is refused
/// (unknown mode, or a target below zero or beyond `u64::MAX`).
pub open spec fn seek_target(m: StreamModel, pos: i64, mode: i32) -> Option<nat> {
    if mode == K_IB_SEEK_SET {
        // The offset is reinterpreted as an unsigned 64-bit position.
        if pos >= 0 {
            Some(pos as nat)
        } else {
            Some((pos + 0x1_0000_0000_0000_0000) as nat)
        }
    } else if mode == K_IB_SEEK_CUR || mode == K_IB_SEEK_END {
        let base: int = if mode == K_IB_SEEK_CUR { m.pos as int } else { m.bytes.len() as int };
        let target = base + pos;
        if 0 <= target <= u64::MAX {
            Some(target as nat)
        } else {
            None
        }
    } else {
        None
    }
}

/// How a 64-bit unsigned position is reported through the signed 64-bit
/// `IBStream` interface (two's-complement reinterpretation).
pub open spec fn reported_position(p: int) -> int {
    if p > i64::MAX {
        p - 0x1_0000_0000_0000_0000
    } else {
        p
    }
}

/// COM-facing in-memory stream.
pub struct BStream {
    data: Vec<u8>,
    pos: u64,
}

impl View for BStream {
    type V = StreamModel;

    closed spec fn view(&self) -> StreamModel {
        StreamModel { bytes: self.data@, pos: self.pos as nat }
    }
}

/// Reinterprets a 64-bit unsigned position as signed.
fn position_as_i64(p: u64) -> (r: i64)
    ensures
        r == reported_position(p as int),
{
    if p <= 0x7FFF_FFFF_FFFF_FFFF {
        p as i64
    } else {
        ((p - 0x8000_0000_0000_0000) as i64) + i64::MIN
    }
}

/// Reinterprets a signed offset as an unsigned 64-bit position.
fn offset_as_u64(pos: i64) -> (r: u64)
    ensures
        pos >= 0 ==> r == pos,
        pos < 0 ==> r == pos + 0x1_0000_0000_0000_0000,
{
    if pos >= 0 {
        pos as u64
    } else {
        ((pos - i64::MIN) as u64) + 0x8000_0000_0000_0000
    }
}

impl BStream {
    /// An empty stream with its cursor at the start.
    pub fn new() -> (s: BStream)
        ensures
            s@.bytes == Seq::<u8>::empty(),
            s@.pos == 0,
    {
        BStream { data: Vec::new(), pos: 0 }
    }

    /// A stream over `data` with its cursor at the start.
    pub fn from_data(data: Vec<u8>) -> (s: BStream)
        ensures
            s@.bytes == data@,
            s@.pos == 0,
    {
        BStream { data, pos: 0 }
    }

    /// A copy of the stream's bytes.
    pub fn data(&self) -> (d: Vec<u8>)
        ensures
            d@ == self@.bytes,
    {
        let mut out: Vec<u8> = Vec::with_capacity(self.data.len());
        let mut i: usize = 0;
        while i < self.data.len()
            invariant
                i <= self.data@.len(),
                out@ == self.data@.subrange(0, i as int),
            decreases self.data@.len() - i,
        {
            out.push(self.data[i]);
            i = i + 1;
            assert(out@ =~= self.data@.subrange(0, i as int));
        }
        assert(out@ =~= self.data@);
        out
    }

    /// `IBStream::read`: deliver up to `num_bytes` bytes from the cursor.
    ///
    /// `buffer_present` says whether the caller supplied a destination
    /// buffer. A request for zero bytes succeeds with nothing read; a negative
    /// count, or a positive count without a buffer, is refused with
    /// `K_INVALID_ARGUMENT`. Otherwise the bytes between the cursor and the
    /// end of the data (at most `num_bytes` of them) are returned and the
    /// cursor advances past them.
    pub fn read(&mut self, num_bytes: i32, buffer_present: bool) -> (r: Result<Vec<u8>, i32>)
        ensures
            num_bytes == 0 ==> (r matches Ok(v) && v@.len() == 0 && final(self)@ == old(self)@),
            num_bytes < 0 || (num_bytes > 0 && !buffer_present) ==> r == Err::<Vec<u8>, i32>(
                K_INVALID_ARGUMENT,
            ) && final(self)@ == old(self)@,
            num_bytes > 0 && buffer_present ==> (r matches Ok(v) && v@ == read_bytes(
                old(self)@,
                num_bytes as nat,
            ) && final(self)@ == after_read(old(self)@, num_bytes as nat)),
    {
        if num_bytes == 0 {
            return Ok(Vec::new());
        }
        if num_bytes < 0 || !buffer_present {
            return Err(K_INVALID_ARGUMENT);
        }
        let ghost m = self@;
        let len = self.data.len();
        let mut out: Vec<u8> = Vec::new();
        if self.pos >= len as u64 {
            return Ok(out);
        }
        let start = self.pos as usize;
        let avail = len - start;
        let want = num_bytes as usize;
        let count = if want <= avail {
            want
        } else {
            avail
        };
        let mut i: usize = 0;
        while i < count
            invariant
                start + count <= self.data@.len(),
                self.data@.len() == len,
                i <= count,
                out@ == self.data@.subrange(start as int, start + i),
            decreases count - i,
        {
            out.push(self.data[start + i]);
            i = i + 1;
            assert(out@ =~= self.data@.subrange(start as int, start + i));
        }
        self.pos = (start + count) as u64;
        Ok(out)
    }

    /// `IBStream::write`: store `num_bytes` bytes from `buffer` at the cursor.
    ///
    /// A count of zero succeeds with nothing written; a negative count, or a
    /// positive count without a buffer, is refused with `K_INVALID_ARGUMENT`,
    /// as is a cursor that no vector index can reach. Otherwise the bytes are
    /// written (zero-filling any gap between the end of the data and the
    /// cursor), the cursor advances past them, and their count is returned.
    pub fn write(&mut self, buffer: Option<&[u8]>, num_bytes: i32) -> (r: Result<i32, i32>)
        requires
            buffer matches Some(b) ==> (num_bytes > 0 ==> b@.len() == num_bytes),
            buffer is Some && num_bytes > 0 && old(self)@.pos <= usize::MAX ==> old(self)@.pos
                + num_bytes <= isize::MAX,
        ensures
            num_bytes == 0 ==> r == Ok::<i32, i32>(0) && final(self)@ == old(self)@,
            num_bytes < 0 || (num_bytes > 0 && buffer is None) ==> r == Err::<i32, i32>(
                K_INVALID_ARGUMENT,
            ) && final(self)@ == old(self)@,
            num_bytes > 0 && buffer is Some && old(self)@.pos > usize::MAX ==> r == Err::<
                i32,
                i32,
            >(K_INVALID_ARGUMENT) && final(self)@ == old(self)@,
            num_bytes > 0 && old(self)@.pos <= usize::MAX ==> (buffer matches Some(b) ==> r
                == Ok::<i32, i32>(num_bytes) && final(self)@ == after_write(old(self)@, b@)),
    {
        if num_bytes == 0 {
            return Ok(0);
        }
        if num_bytes < 0 {
            return Err(K_INVALID_ARGUMENT);
        }
        let buf = match buffer {
            Some(b) => b,
            None => {
                return Err(K_INVALID_ARGUMENT);
            },
        };
        if self.pos > usize::MAX as u64 {
            return Err(K_INVALID_ARGUMENT);
        }
        let ghost old_bytes = self.data@;
        let ghost old_len = self.data@.len();
        let p = self.pos as usize;
        let n = num_bytes as usize;
        // Zero-fill the gap between the end of the data and the cursor.
        while self.data.len() < p
            invariant
                old_len <= self.data@.len() <= (if p > old_len { p as int } else { old_len as int }),
                old_bytes == old(self).data@,
                old_len == old_bytes.len(),
                p < isize::MAX,
                forall|k: int|
                    0 <= k < self.data@.len() ==> #[trigger] self.data@[k] == (if k < old_len {
                        old_bytes[k]
                    } else {
                        0u8
                    }),
            decreases p - self.data@.len(),
        {
            self.data.push(0);
        }
        assert(self.data@ =~= written_bytes(old_bytes, p as nat, buf@.take(0)));
        let mut i: usize = 0;
        while i < n
            invariant
                i <= n,
                n == buf@.len(),
                p + n <= isize::MAX,
                old_bytes == old(self).data@,
                self.data@ == written_bytes(old_bytes, p as nat, buf@.take(i as int)),
            decreases n - i,
        {
            let idx = p + i;
            let ghost before = self.data@;
            if idx < self.data.len() {
                self.data.set(idx, buf[i]);
            } else {
                self.data.push(buf[i]);
            }
            i = i + 1;
            assert(self.data@ =~= written_bytes(old_bytes, p as nat, buf@.take(i as int)));
        }
        assert(buf@.take(n as int) =~= buf@);
        self.pos = (p + n) as u64;
        Ok(num_bytes)
    }

    /// `IBStream::seek`: move the cursor.
    ///
    /// `K_IB_SEEK_SET` takes `pos` as an absolute (unsigned) position;
    /// `K_IB_SEEK_CUR` and `K_IB_SEEK_END` add `pos` to the cursor or to the
    /// data length and refuse a target below zero or beyond `u64::MAX`. Any
    /// other mode is refused. On success the new position is returned as the
    /// interface reports it.
    pub fn seek(&mut self, pos: i64, mode: i32) -> (r: Result<i64, i32>)
        ensures
            match seek_target(old(self)@, pos, mode) {
                Some(t) => r matches Ok(v) && v == reported_position(t as int) && final(self)@
                    == (StreamModel { bytes: old(self)@.bytes, pos: t }),
                None => r == Err::<i64, i32>(K_INVALID_ARGUMENT) && final(self)@ == old(self)@,
            },
    {
        if mode == K_IB_SEEK_SET {
            let target = offset_as_u64(pos);
            self.pos = target;
            return Ok(position_as_i64(target));
        }
        if mode != K_IB_SEEK_CUR && mode != K_IB_SEEK_END {
            return Err(K_INVALID_ARGUMENT);
        }
        let base: u64 = if mode == K_IB_SEEK_CUR {
            self.pos
        } else {
            self.data.len() as u64
        };
        let target: i128 = base as i128 + pos as i128;
        if target < 0 || target > u64::MAX as i128 {
            return Err(K_INVALID_ARGUMENT);
        }
        let t = target as u64;
        self.pos = t;
        Ok(position_as_i64(t))
    }

    /// `IBStream::tell`: the cursor position as the interface reports it.
    pub fn tell(&self) -> (r: i64)
        ensures
            r == reported_position(self@.pos as int),
    {
        position_as_i64(self.pos)
    }
}

/// Reading back what was just written: after a write of a non-empty `buf` at
/// the cursor, seeking back to where the write started and reading
/// `buf.len()` bytes yields exactly `buf`.
pub proof fn lemma_write_then_read_back(m: StreamModel, buf: Seq<u8>)
    requires
        buf.len() > 0,
    ensures
        ({
            let written = after_write(m, buf);
            let rewound = StreamModel { bytes: written.bytes, pos: m.pos };
            &&& read_len(rewound, buf.len()) == buf.len()
            &&& read_bytes(rewound, buf.len()) == buf
            &&& after_read(rewound, buf.len()) == written
        }),
{
    let written = after_write(m, buf);
    let rewound = StreamModel { bytes: written.bytes, pos: m.pos };
    assert(read_bytes(rewound, buf.len()) =~= buf);
}

/// A write leaves every byte outside the written range as it was, and
/// zero-fills any gap between the old end and the cursor.
pub proof fn lemma_write_preserves_outside(m: StreamModel, buf: Seq<u8>, i: int)
    requires
        0 <= i < m.bytes.len(),
        i < m.pos || i >= m.pos + buf.len(),
    ensures
        after_write(m, buf).bytes[i] == m.bytes[i],
        after_write(m, buf).bytes.len() >= m.bytes.len(),
{
}

/// Consecutive reads deliver consecutive bytes: reading `a` bytes and then
/// `b` bytes delivers what a single read of `a + b` bytes delivers, and
/// leaves the cursor at the same place.
pub proof fn lemma_consecutive_reads(m: StreamModel, a: nat, b: nat)
    ensures
        read_bytes(m, a) + read_bytes(after_read(m, a), b) == read_bytes(m, a + b),
        after_read(after_read(m, a), b) == after_read(m, a + b),
{
    let m2 = after_read(m, a);
    if m.pos < m.bytes.len() {
        if m2.pos < m.bytes.len() {
            assert(read_bytes(m, a) + read_bytes(m2, b) =~= read_bytes(m, a + b));
        } else {
            assert(read_bytes(m2, b) =~= Seq::<u8>::empty());
            assert(read_bytes(m, a) + read_bytes(m2, b) =~= read_bytes(m, a + b));
        }
    } else {
        assert(read_bytes(m, a) + read_bytes(m2, b) =~= read_bytes(m, a + b));
    }
}

/// An absolute seek followed by `tell` reports the offset the seek was given.
pub proof fn lemma_seek_set_then_tell(m: StreamModel, pos: i64)
    ensures
        seek_target(m, pos, K_IB_SEEK_SET) matches Some(t) && reported_position(t as int) == pos,
{
}

/// Seeking to the end puts the cursor at the data length, where a read
/// delivers nothing.
pub proof fn lemma_seek_end_reads_nothing(m: StreamModel, n: nat)
    requires
        m.bytes.len() <= u64::MAX,
    ensures
        seek_target(m, 0, K_IB_SEEK_END) == Some(m.bytes.len()),
        read_len(StreamModel { bytes: m.bytes, pos: m.bytes.len() }, n) == 0,
{
}

} // verus!
