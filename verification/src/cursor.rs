//! The content buffer of an open file: bytes and a position within them.

use vstd::prelude::*;
use vstd::slice::*;
use crate::error::Error;

verus! {

/// Where a seek is measured from.
#[derive(Clone, Copy, Debug)]
pub enum SeekFrom {
    /// So many bytes from the start.
    Start(u64),
    /// So many bytes from the end; negative is before it.
    End(i64),
    /// So many bytes from the current position.
    Current(i64),
}

/// The position that `delta` bytes from `base` denotes, where there is one
/// that is neither negative nor beyond what 64 bits hold.
pub open spec fn offset_position(base: u64, delta: i64) -> Option<u64> {
    if 0 <= base + delta <= u64::MAX {
        Some((base + delta) as u64)
    } else {
        None
    }
}

/// `n` zero bytes.
pub open spec fn zeros(n: nat) -> Seq<u8> {
    Seq::new(n, |i: int| 0u8)
}

/// A byte buffer with a position, as a value.
pub struct CursorView {
    pub bytes: Seq<u8>,
    pub pos: u64,
}

impl CursorView {
    /// The index at which a read starts: the position, or the end if the
    /// position lies beyond it.
    pub open spec fn read_start(self) -> int {
        if self.pos <= self.bytes.len() {
            self.pos as int
        } else {
            self.bytes.len() as int
        }
    }

    /// How many bytes a read of up to `count` yields.
    pub open spec fn read_len(self, count: usize) -> int {
        if count <= self.bytes.len() - self.read_start() {
            count as int
        } else {
            self.bytes.len() - self.read_start()
        }
    }

    /// The bytes that a read of up to `count` yields.
    pub open spec fn read_out(self, count: usize) -> Seq<u8> {
        self.bytes.subrange(self.read_start(), self.read_start() + self.read_len(count))
    }

    /// The buffer after a read of up to `count`.
    pub open spec fn after_read(self, count: usize) -> CursorView {
        CursorView { bytes: self.bytes, pos: (self.pos + self.read_len(count)) as u64 }
    }

    /// Whether a write of `n` bytes ends at an index that the machine can hold.
    pub open spec fn can_write(self, n: nat) -> bool {
        self.pos + n <= usize::MAX
    }

    /// The bytes before a write at the position: the buffer, filled with
    /// zeros up to the position where that lies beyond the end.
    pub open spec fn padded(self) -> Seq<u8> {
        if self.pos > self.bytes.len() {
            self.bytes + zeros((self.pos - self.bytes.len()) as nat)
        } else {
            self.bytes
        }
    }

    /// What of `padded` is left behind the first `n` bytes written at the position.
    pub open spec fn tail_after(self, n: nat) -> Seq<u8> {
        if self.pos + n < self.padded().len() {
            self.padded().subrange(self.pos + n, self.padded().len() as int)
        } else {
            Seq::empty()
        }
    }

    /// The bytes after writing `buf` at the position.
    pub open spec fn written(self, buf: Seq<u8>) -> Seq<u8> {
        self.padded().subrange(0, self.pos as int) + buf + self.tail_after(buf.len())
    }

    /// The buffer after writing `buf` at the position. Writing nothing changes nothing.
    pub open spec fn after_write(self, buf: Seq<u8>) -> CursorView
        recommends
            self.can_write(buf.len()),
    {
        if buf.len() == 0 {
            self
        } else {
            CursorView { bytes: self.written(buf), pos: (self.pos + buf.len()) as u64 }
        }
    }

    /// The position a seek moves to, where it is valid.
    pub open spec fn seek_target(self, from: SeekFrom) -> Option<u64> {
        match from {
            SeekFrom::Start(n) => Some(n),
            SeekFrom::End(d) => if self.bytes.len() <= u64::MAX {
                offset_position(self.bytes.len() as u64, d)
            } else {
                None
            },
            SeekFrom::Current(d) => offset_position(self.pos, d),
        }
    }
}

/// `base + delta`, unless that is negative or overflows.
pub fn checked_offset(base: u64, delta: i64) -> (r: Option<u64>)
    ensures
        r == offset_position(base, delta),
{
    if delta >= 0 {
        let up: u64 = delta as u64;
        if base <= u64::MAX - up {
            Some(base + up)
        } else {
            None
        }
    } else {
        let down: u64 = if delta == i64::MIN {
            9223372036854775808u64
        } else {
            (-delta) as u64
        };
        if down <= base {
            Some(base - down)
        } else {
            None
        }
    }
}

/// A growable byte buffer with a read/write position.
#[derive(Debug)]
pub struct Cursor {
    bytes: Vec<u8>,
    pos: u64,
}

impl View for Cursor {
    type V = CursorView;

    closed spec fn view(&self) -> CursorView {
        CursorView { bytes: self.bytes@, pos: self.pos }
    }
}

impl Cursor {
    /// A buffer over `bytes`, positioned at the start.
    pub fn new(bytes: Vec<u8>) -> (r: Cursor)
        ensures
            r@ == (CursorView { bytes: bytes@, pos: 0 }),
    {
        Cursor { bytes, pos: 0 }
    }

    /// The current position.
    pub fn position(&self) -> (r: u64)
        ensures
            r == self@.pos,
    {
        self.pos
    }

    /// Moves to `pos`, which may lie beyond the end.
    pub fn set_position(&mut self, pos: u64)
        ensures
            final(self)@ == (CursorView { bytes: old(self)@.bytes, pos }),
    {
        self.pos = pos;
    }

    /// The bytes held.
    pub fn get_ref(&self) -> (r: &Vec<u8>)
        ensures
            r@ == self@.bytes,
    {
        &self.bytes
    }

    /// The bytes held, giving up the position.
    pub fn into_inner(self) -> (r: Vec<u8>)
        ensures
            r@ == self@.bytes,
    {
        self.bytes
    }

    /// Reads up to `count` bytes from the position and moves past them.
    /// Fewer come back where the buffer ends first; none at or beyond the end.
    pub fn read(&mut self, count: usize) -> (r: Vec<u8>)
        ensures
            r@ == old(self)@.read_out(count),
            final(self)@ == old(self)@.after_read(count),
    {
        let len: usize = self.bytes.len();
        let start: usize = if self.pos <= len as u64 {
            self.pos as usize
        } else {
            len
        };
        let n: usize = if count <= len - start {
            count
        } else {
            len - start
        };
        let out = slice_to_vec(slice_subrange(self.bytes.as_slice(), start, start + n));
        self.pos = self.pos + n as u64;
        out
    }

    /// Writes all of `buf` at the position and moves past it. Bytes already
    /// there are overwritten, the buffer grows as needed, and a gap between
    /// its end and the position is filled with zeros. Fails with `Io`, and
    /// changes nothing, where the write would end beyond what the machine
    /// can index.
    pub fn write(&mut self, buf: &[u8]) -> (r: Result<(), Error>)
        ensures
            old(self)@.can_write(buf@.len()) ==> r is Ok && final(self)@ == old(self)@.after_write(
                buf@,
            ),
            !old(self)@.can_write(buf@.len()) ==> r == Err::<(), Error>(Error::Io) && final(self)@
                == old(self)@,
    {
        let n: usize = buf.len();
        if self.pos > usize::MAX as u64 || n > usize::MAX - self.pos as usize {
            return Err(Error::Io);
        }
        if n == 0 {
            return Ok(());
        }
        let start: usize = self.pos as usize;
        let ghost before = self@;
        while self.bytes.len() < start
            invariant
                self.pos == before.pos,
                start == before.pos,
                before.bytes.len() <= self.bytes@.len(),
                self.bytes@.len() <= start || self.bytes@ == before.bytes,
                self.bytes@ == before.bytes + zeros((self.bytes@.len() - before.bytes.len()) as nat),
            decreases start - self.bytes.len(),
        {
            self.bytes.push(0u8);
            assert(self.bytes@ =~= before.bytes + zeros(
                (self.bytes@.len() - before.bytes.len()) as nat,
            ));
        }
        assert(self.bytes@ =~= before.padded());
        let mut i: usize = 0;
        while i < n
            invariant
                i <= n,
                n == buf@.len(),
                self.pos == before.pos,
                start == before.pos,
                start + n <= usize::MAX,
                start <= before.padded().len(),
                self.bytes@ == before.padded().subrange(0, start as int) + buf@.subrange(0, i as int)
                    + before.tail_after(i as nat),
            decreases n - i,
        {
            let b: u8 = buf[i];
            if start + i < self.bytes.len() {
                self.bytes.set(start + i, b);
            } else {
                self.bytes.push(b);
            }
            assert(self.bytes@ =~= before.padded().subrange(0, start as int) + buf@.subrange(
                0,
                i + 1,
            ) + before.tail_after((i + 1) as nat));
            i = i + 1;
        }
        assert(buf@.subrange(0, n as int) =~= buf@);
        self.pos = self.pos + n as u64;
        Ok(())
    }

    /// Moves the position. Fails with `Io`, and stays put, where the target
    /// would be negative or beyond what 64 bits hold.
    pub fn seek(&mut self, from: SeekFrom) -> (r: Result<u64, Error>)
        ensures
            match old(self)@.seek_target(from) {
                Some(p) => r == Ok::<u64, Error>(p) && final(self)@ == (CursorView {
                    bytes: old(self)@.bytes,
                    pos: p,
                }),
                None => r == Err::<u64, Error>(Error::Io) && final(self)@ == old(self)@,
            },
    {
        let target: Option<u64> = match from {
            SeekFrom::Start(n) => Some(n),
            SeekFrom::End(d) => {
                let len: usize = self.bytes.len();
                if len as u128 <= u64::MAX as u128 {
                    checked_offset(len as u64, d)
                } else {
                    None
                }
            },
            SeekFrom::Current(d) => checked_offset(self.pos, d),
        };
        match target {
            Some(p) => {
                self.pos = p;
                Ok(p)
            },
            None => Err(Error::Io),
        }
    }
}

} // verus!
