//! Cursors over borrowed byte buffers: a position that only moves forward,
//! over bytes that are read from or overwritten in place.

use crate::bytes::{
    be_bytes, lemma_be_bytes_len, lemma_be_bytes_skip, u16_to_be, u32_to_be, u64_to_be,
};
use crate::error::EncodeError;
use vstd::prelude::*;

verus! {

/// What a cursor is, mathematically: the whole buffer and an offset into it.
pub struct CursorView {
    pub bytes: Seq<u8>,
    pub pos: nat,
}

impl CursorView {
    /// The position lies within the buffer or at its end.
    pub open spec fn wf(self) -> bool {
        self.pos <= self.bytes.len()
    }

    /// How many bytes lie between the position and the end.
    pub open spec fn room(self) -> nat {
        if self.pos <= self.bytes.len() {
            (self.bytes.len() - self.pos) as nat
        } else {
            0
        }
    }

    /// The bytes between the position and the end.
    pub open spec fn remaining(self) -> Seq<u8> {
        self.bytes.subrange(self.pos as int, self.bytes.len() as int)
    }

    /// The cursor moved forward by `n` bytes over an unchanged buffer.
    pub open spec fn advance(self, n: nat) -> CursorView {
        CursorView { bytes: self.bytes, pos: self.pos + n }
    }

    /// What a write of `data` leaves behind: as much of `data` as there is
    /// room for overwrites the buffer at the position, and the position moves
    /// past it. A write that does not fit fills the buffer to its end.
    #[verifier::opaque]
    pub open spec fn put(self, data: Seq<u8>) -> CursorView {
        let k = if data.len() <= self.room() {
            data.len()
        } else {
            self.room()
        };
        CursorView {
            bytes: self.bytes.subrange(0, self.pos as int) + data.subrange(0, k as int)
                + self.bytes.subrange((self.pos + k) as int, self.bytes.len() as int),
            pos: self.pos + k,
        }
    }

    /// A write that fits puts all of `data` at the position, moves the
    /// position past it and leaves every other byte as it was.
    pub proof fn lemma_put_fits(self, data: Seq<u8>)
        requires
            self.wf(),
            data.len() <= self.room(),
        ensures
            self.put(data).pos == self.pos + data.len(),
            self.put(data).bytes.len() == self.bytes.len(),
            self.put(data).remaining() == self.remaining().skip(data.len() as int),
            self.put(data).bytes.subrange(0, self.pos as int) == self.bytes.subrange(
                0,
                self.pos as int,
            ),
            self.put(data).bytes.subrange(self.pos as int, self.put(data).pos as int) == data,
    {
        reveal(CursorView::put);
        let after = self.put(data);
        assert(data.subrange(0, data.len() as int) =~= data);
        assert(after.bytes.subrange(self.pos as int, after.pos as int) =~= data);
        assert(after.bytes.subrange(0, self.pos as int) =~= self.bytes.subrange(
            0,
            self.pos as int,
        ));
        assert(after.remaining() =~= self.remaining().skip(data.len() as int));
    }

    /// A write that does not fit fills the buffer from the position to its
    /// end with the start of `data`, and leaves the position at the end.
    pub proof fn lemma_put_overflows(self, data: Seq<u8>)
        requires
            self.wf(),
            data.len() > self.room(),
        ensures
            self.put(data).pos == self.bytes.len(),
            self.put(data).bytes == self.bytes.subrange(0, self.pos as int) + data.subrange(
                0,
                self.room() as int,
            ),
    {
        reveal(CursorView::put);
        assert(self.put(data).bytes =~= self.bytes.subrange(0, self.pos as int) + data.subrange(
            0,
            self.room() as int,
        ));
    }

    /// Two writes in a row are one write of the concatenation, and once a
    /// write has filled the buffer nothing that follows changes anything.
    pub proof fn lemma_put_put(self, a: Seq<u8>, b: Seq<u8>)
        requires
            self.wf(),
        ensures
            self.put(a).wf(),
            self.put(a).bytes.len() == self.bytes.len(),
            self.put(a).room() == if a.len() <= self.room() {
                self.room() - a.len()
            } else {
                0
            },
            self.put(a).put(b) == self.put(a + b),
            a.len() >= self.room() ==> self.put(a + b) == self.put(a),
    {
        reveal(CursorView::put);
        let one = self.put(a);
        let two = one.put(b);
        let both = self.put(a + b);
        assert(two.bytes =~= both.bytes);
        if a.len() >= self.room() {
            assert(both.bytes =~= one.bytes);
        }
    }
}

/// A read position in a borrowed buffer.
pub struct ReadCursor<'a> {
    data: &'a [u8],
    pos: usize,
}

impl<'a> View for ReadCursor<'a> {
    type V = CursorView;

    closed spec fn view(&self) -> CursorView {
        CursorView { bytes: self.data@, pos: self.pos as nat }
    }
}

impl<'a> ReadCursor<'a> {
    #[verifier::type_invariant]
    pub closed spec fn inv(&self) -> bool {
        self.pos <= self.data@.len()
    }

    /// A value that meets its type's invariant has a well-formed view.
    pub proof fn lemma_inv(&self)
        requires
            self.inv(),
        ensures
            self@.wf(),
    {
    }

    /// A cursor at the start of `data`.
    pub fn new(data: &'a [u8]) -> (c: Self)
        ensures
            c@ == (CursorView { bytes: data@, pos: 0 }),
    {
        ReadCursor { data, pos: 0 }
    }

    /// The offset of the next byte to be read.
    pub fn position(&self) -> (p: usize)
        ensures
            p == self@.pos,
            self@.wf(),
    {
        proof {
            use_type_invariant(self);
        }
        self.pos
    }

    /// The bytes not yet read.
    pub fn remaining(&self) -> (r: &'a [u8])
        ensures
            r@ == self@.remaining(),
            self@.wf(),
    {
        proof {
            use_type_invariant(self);
        }
        assert(self.data@.len() == self.data.len());
        &self.data[self.pos..self.data.len()]
    }

    /// Moves the position forward by `n` bytes.
    pub fn advance(&mut self, n: usize)
        requires
            n <= old(self)@.room(),
        ensures
            final(self)@ == old(self)@.advance(n as nat),
    {
        proof {
            use_type_invariant(&*self);
        }
        assert(self.data@.len() == self.data.len());
        self.pos = self.pos + n;
    }
}

/// A write position in a borrowed buffer of fixed length.
pub struct WriteCursor<'a> {
    buf: &'a mut [u8],
    pos: usize,
}

impl<'a> View for WriteCursor<'a> {
    type V = CursorView;

    closed spec fn view(&self) -> CursorView {
        CursorView { bytes: self.buf@, pos: self.pos as nat }
    }
}

impl<'a> WriteCursor<'a> {
    #[verifier::type_invariant]
    pub closed spec fn inv(&self) -> bool {
        self.pos <= self.buf@.len()
    }

    /// A value that meets its type's invariant has a well-formed view.
    pub proof fn lemma_inv(&self)
        requires
            self.inv(),
        ensures
            self@.wf(),
    {
    }

    /// A cursor at the start of `buf`.
    pub fn new(buf: &'a mut [u8]) -> (c: Self)
        ensures
            c@ == (CursorView { bytes: old(buf)@, pos: 0 }),
    {
        WriteCursor { buf, pos: 0 }
    }

    /// The offset of the next byte to be written.
    pub fn position(&self) -> (p: usize)
        ensures
            p == self@.pos,
            self@.wf(),
    {
        proof {
            use_type_invariant(self);
        }
        self.pos
    }

    /// The whole buffer as it stands, written part and unwritten part.
    pub fn get_ref(&self) -> (r: &[u8])
        ensures
            r@ == self@.bytes,
    {
        &*self.buf
    }

    /// Writes `data` at the position. Where the buffer is too short for all
    /// of it, the part that fits is written, the position is left at the end
    /// of the buffer, and the call fails.
    pub fn write_all(&mut self, data: &[u8]) -> (r: Result<(), EncodeError>)
        ensures
            final(self)@ == old(self)@.put(data@),
            r is Ok <==> data@.len() <= old(self)@.room(),
    {
        proof {
            use_type_invariant(&*self);
        }
        let ghost pre = self@;
        assert(self.buf@.len() == self.buf.len());
        assert(data@.len() == data.len());
        let start = self.pos;
        let room = self.buf.len() - start;
        let n = if data.len() <= room {
            data.len()
        } else {
            room
        };
        let mut i: usize = 0;
        while i < n
            invariant
                i <= n,
                n <= data@.len(),
                start + n <= self.buf@.len(),
                self.buf@.len() <= usize::MAX,
                self.pos == start,
                self.buf@.len() == pre.bytes.len(),
                self.buf@ == pre.bytes.subrange(0, start as int) + data@.subrange(0, i as int)
                    + pre.bytes.subrange(start + i, pre.bytes.len() as int),
            decreases n - i,
        {
            self.buf[start + i] = data[i];
            i = i + 1;
            assert(self.buf@ =~= pre.bytes.subrange(0, start as int) + data@.subrange(0, i as int)
                + pre.bytes.subrange(start + i, pre.bytes.len() as int));
        }
        self.pos = start + n;
        proof {
            reveal(CursorView::put);
        }
        if n < data.len() {
            Err(EncodeError::BufferFull)
        } else {
            Ok(())
        }
    }

    /// Writes one byte.
    pub fn write_u8(&mut self, n: u8) -> (r: Result<(), EncodeError>)
        ensures
            final(self)@ == old(self)@.put(seq![n]),
            r is Ok <==> 1 <= old(self)@.room(),
    {
        let one = [n];
        assert(one@ =~= seq![n]);
        self.write_all(&one)
    }

    /// Writes `n` as two bytes, most significant first.
    pub fn write_u16(&mut self, n: u16) -> (r: Result<(), EncodeError>)
        ensures
            final(self)@ == old(self)@.put(be_bytes(n as nat, 2)),
            r is Ok <==> 2 <= old(self)@.room(),
    {
        let digits = u16_to_be(n);
        self.write_all(&digits)
    }

    /// Writes `n` as four bytes, most significant first.
    pub fn write_u32(&mut self, n: u32) -> (r: Result<(), EncodeError>)
        ensures
            final(self)@ == old(self)@.put(be_bytes(n as nat, 4)),
            r is Ok <==> 4 <= old(self)@.room(),
    {
        let digits = u32_to_be(n);
        self.write_all(&digits)
    }

    /// Writes the low 48 bits of `n` as six bytes, most significant first.
    /// The upper 16 bits of `n` are dropped.
    pub fn write_u48(&mut self, n: u64) -> (r: Result<(), EncodeError>)
        ensures
            final(self)@ == old(self)@.put(be_bytes(n as nat, 6)),
            r is Ok <==> 6 <= old(self)@.room(),
    {
        let digits = u64_to_be(n);
        proof {
            lemma_be_bytes_skip(n as nat, 2, 6);
            lemma_be_bytes_len(n as nat, 6);
            assert(digits@.subrange(2, 8) =~= be_bytes(n as nat, 8).skip(2));
        }
        self.write_all(&digits[2..8])
    }

    /// Writes `n` as eight bytes, most significant first.
    pub fn write_u64(&mut self, n: u64) -> (r: Result<(), EncodeError>)
        ensures
            final(self)@ == old(self)@.put(be_bytes(n as nat, 8)),
            r is Ok <==> 8 <= old(self)@.room(),
    {
        let digits = u64_to_be(n);
        self.write_all(&digits)
    }
}

} // verus!
