//! Batch framing: a packet is a 20-byte header (session, sequence number of
//! the first message, message count) followed by the messages, each behind a
//! two-byte length.

use crate::bytes::{
    be_bytes, be_value, lemma_be_bytes_len, lemma_be_value_bound, lemma_be_value_pair,
    lemma_bytes_of_value, lemma_pow256_values, lemma_value_of_bytes_exact, u64_at, u64_to_be,
    u16_to_be,
};
use crate::itch::records::PacketHeader;
use vstd::prelude::*;
use vstd::string::StringSliceAdditionalSpecFns;

verus! {

/// The length of the packet header.
pub const MOLD_HEADER_LEN: usize = 20;

/// The length of the largest packet that a [`MoldWriter`] puts together.
pub const MOLD_PACKET_LEN: usize = 1400;

/// The messages at the start of `body`, at most `count` of them. Reading
/// stops without a fault where fewer than two bytes are left for a length, or
/// where a length announces more bytes than are left.
pub open spec fn frames(body: Seq<u8>, count: nat) -> Seq<Seq<u8>>
    decreases count,
{
    if count == 0 || body.len() < 2 {
        Seq::empty()
    } else {
        let n = be_value(body.subrange(0, 2)) as int;
        if body.len() < 2 + n {
            Seq::empty()
        } else {
            seq![body.subrange(2, 2 + n)] + frames(body.skip(2 + n), (count - 1) as nat)
        }
    }
}

/// The session that the header of `packet` names.
pub open spec fn packet_session(packet: Seq<u8>) -> Seq<u8> {
    packet.subrange(0, 10)
}

/// The sequence number in the header of `packet`.
pub open spec fn packet_seqno(packet: Seq<u8>) -> u64 {
    u64_at(packet, 10)
}

/// The message count that the header of `packet` announces.
pub open spec fn packet_count(packet: Seq<u8>) -> nat {
    be_value(packet.subrange(18, 20))
}

/// The messages that `packet` yields. A packet too short for a header yields
/// none.
pub open spec fn packet_messages(packet: Seq<u8>) -> Seq<Seq<u8>> {
    if packet.len() < MOLD_HEADER_LEN {
        Seq::empty()
    } else {
        frames(packet.skip(MOLD_HEADER_LEN as int), packet_count(packet))
    }
}

/// One message behind its two-byte length.
pub open spec fn frame(msg: Seq<u8>) -> Seq<u8> {
    be_bytes(msg.len(), 2) + msg
}

/// The messages of `msgs` in order, each behind its length.
pub open spec fn framed(msgs: Seq<Seq<u8>>) -> Seq<u8>
    decreases msgs.len(),
{
    if msgs.len() == 0 {
        Seq::empty()
    } else {
        framed(msgs.drop_last()) + frame(msgs.last())
    }
}

/// The packet with the given session, sequence number and messages.
pub open spec fn packet(session: Seq<u8>, seqno: u64, msgs: Seq<Seq<u8>>) -> Seq<u8> {
    session + be_bytes(seqno as nat, 8) + be_bytes(msgs.len(), 2) + framed(msgs)
}

/// Every message is short enough for its length to fit in two bytes.
pub open spec fn all_short(msgs: Seq<Seq<u8>>) -> bool {
    forall|i: int| 0 <= i < msgs.len() ==> (#[trigger] msgs[i]).len() <= 0xffff
}

/// A packet never yields more messages than its header announces.
pub proof fn lemma_frames_count(body: Seq<u8>, count: nat)
    ensures
        frames(body, count).len() <= count,
    decreases count,
{
    if count > 0 && body.len() >= 2 {
        let n = be_value(body.subrange(0, 2)) as int;
        if body.len() >= 2 + n {
            lemma_frames_count(body.skip(2 + n), (count - 1) as nat);
        }
    }
}

/// The messages that are read lie in the body one after the other from its
/// start, each behind its length: nothing is read from beyond the body, and
/// no message is longer than two bytes can say.
pub proof fn lemma_frames_within(body: Seq<u8>, count: nat)
    ensures
        all_short(frames(body, count)),
        framed(frames(body, count)).len() <= body.len(),
        framed(frames(body, count)) == body.subrange(
            0,
            framed(frames(body, count)).len() as int,
        ),
    decreases count,
{
    let got = frames(body, count);
    if count > 0 && body.len() >= 2 {
        let n = be_value(body.subrange(0, 2)) as int;
        if body.len() >= 2 + n {
            let first = body.subrange(2, 2 + n);
            let rest = body.skip(2 + n);
            let more = frames(rest, (count - 1) as nat);
            lemma_frames_within(rest, (count - 1) as nat);
            lemma_be_value_bound(body.subrange(0, 2));
            lemma_pow256_values();
            lemma_bytes_of_value(body.subrange(0, 2));
            assert(frame(first) =~= body.subrange(0, 2 + n));
            lemma_framed_front(first, more);
            assert(framed(got) =~= body.subrange(0, framed(got).len() as int));
            return ;
        }
    }
    assert(framed(got) =~= body.subrange(0, 0));
}

/// Framing a sequence that starts with `first` is the frame of `first`
/// followed by the framing of the rest.
pub proof fn lemma_framed_front(first: Seq<u8>, rest: Seq<Seq<u8>>)
    ensures
        framed(seq![first] + rest) == frame(first) + framed(rest),
    decreases rest.len(),
{
    let all = seq![first] + rest;
    if rest.len() == 0 {
        assert(all.drop_last() =~= Seq::<Seq<u8>>::empty());
        assert(all.last() == first);
        assert(framed(all) =~= frame(first) + framed(rest));
    } else {
        lemma_framed_front(first, rest.drop_last());
        assert(all.drop_last() =~= seq![first] + rest.drop_last());
        assert(all.last() == rest.last());
        assert(framed(all) == framed(all.drop_last()) + frame(all.last()));
        assert(framed(rest) == framed(rest.drop_last()) + frame(rest.last()));
        assert(framed(all) =~= frame(first) + framed(rest));
    }
}

/// Framing one message more appends its frame.
pub proof fn lemma_framed_push(msgs: Seq<Seq<u8>>, msg: Seq<u8>)
    ensures
        framed(msgs.push(msg)) == framed(msgs) + frame(msg),
        framed(msgs.push(msg)).len() == framed(msgs).len() + 2 + msg.len(),
{
    assert(msgs.push(msg).drop_last() =~= msgs);
    lemma_be_bytes_len(msg.len(), 2);
}

/// Each framed message takes at least the two bytes of its length.
pub proof fn lemma_framed_len(msgs: Seq<Seq<u8>>)
    ensures
        framed(msgs).len() >= 2 * msgs.len(),
    decreases msgs.len(),
{
    if msgs.len() > 0 {
        lemma_framed_len(msgs.drop_last());
        lemma_be_bytes_len(msgs.last().len(), 2);
    }
}

/// Reading as many messages as were framed gives them back, whatever
/// follows them in the body.
pub proof fn lemma_frames_of_framed(msgs: Seq<Seq<u8>>, tail: Seq<u8>)
    requires
        all_short(msgs),
    ensures
        frames(framed(msgs) + tail, msgs.len()) == msgs,
    decreases msgs.len(),
{
    if msgs.len() == 0 {
        assert(frames(framed(msgs) + tail, 0) =~= msgs);
    } else {
        let first = msgs[0];
        let rest = msgs.skip(1);
        let body = framed(msgs) + tail;
        assert(msgs =~= seq![first] + rest);
        lemma_framed_front(first, rest);
        lemma_be_bytes_len(first.len(), 2);
        lemma_pow256_values();
        lemma_value_of_bytes_exact(first.len(), 2);
        assert(body.subrange(0, 2) =~= be_bytes(first.len(), 2));
        assert(body.subrange(2, 2 + first.len() as int) =~= first);
        assert(body.skip(2 + first.len() as int) =~= framed(rest) + tail);
        assert(all_short(rest)) by {
            assert forall|i: int| 0 <= i < rest.len() implies (#[trigger] rest[i]).len()
                <= 0xffff by {
                assert(rest[i] == msgs[i + 1]);
            }
        }
        lemma_frames_of_framed(rest, tail);
        assert(frames(body, msgs.len()) =~= msgs);
    }
}

/// What was put into a packet is what a reader finds in it: the session, the
/// sequence number, the count and every message, in order.
pub proof fn lemma_packet_read_back(session: Seq<u8>, seqno: u64, msgs: Seq<Seq<u8>>)
    requires
        session.len() == 10,
        msgs.len() <= 0xffff,
        all_short(msgs),
    ensures
        packet_session(packet(session, seqno, msgs)) == session,
        packet_seqno(packet(session, seqno, msgs)) == seqno,
        packet_count(packet(session, seqno, msgs)) == msgs.len(),
        packet_messages(packet(session, seqno, msgs)) == msgs,
{
    let p = packet(session, seqno, msgs);
    lemma_be_bytes_len(seqno as nat, 8);
    lemma_be_bytes_len(msgs.len(), 2);
    lemma_pow256_values();
    assert(p.subrange(0, 10) =~= session);
    assert(p.subrange(10, 18) =~= be_bytes(seqno as nat, 8));
    lemma_value_of_bytes_exact(seqno as nat, 8);
    assert(p.subrange(18, 20) =~= be_bytes(msgs.len(), 2));
    lemma_value_of_bytes_exact(msgs.len(), 2);
    assert(p.skip(20) =~= framed(msgs) + Seq::<u8>::empty());
    lemma_frames_of_framed(msgs, Seq::empty());
}

/// The header of a packet, decoded as a record, holds what the packet's own
/// accessors give.
pub proof fn lemma_packet_header(p: Seq<u8>)
    requires
        p.len() >= MOLD_HEADER_LEN,
    ensures
        PacketHeader::decoded(p).session@ == packet_session(p),
        PacketHeader::decoded(p).sequence_number == packet_seqno(p),
        PacketHeader::decoded(p).message_count == packet_count(p),
{
    lemma_be_value_bound(p.subrange(18, 20));
    lemma_pow256_values();
    assert(PacketHeader::decoded(p).session@ =~= p.subrange(0, 10));
}

/// A batch packet to be read: a view of borrowed bytes.
pub struct MoldReader<'a> {
    data: &'a [u8],
}

impl<'a> View for MoldReader<'a> {
    type V = Seq<u8>;

    closed spec fn view(&self) -> Seq<u8> {
        self.data@
    }
}

/// The eight bytes at the start of `bytes` as a big-endian number.
fn as_u64(bytes: &[u8]) -> (r: u64)
    requires
        bytes@.len() >= 8,
    ensures
        r == u64_at(bytes@, 0),
{
    let b0 = bytes[0] as u64;
    let b1 = bytes[1] as u64;
    let b2 = bytes[2] as u64;
    let b3 = bytes[3] as u64;
    let b4 = bytes[4] as u64;
    let b5 = bytes[5] as u64;
    let b6 = bytes[6] as u64;
    let b7 = bytes[7] as u64;
    proof {
        assert(b0 < 256 ==> b0 << 56 == b0 * 0x100_0000_0000_0000) by (bit_vector);
        assert(b1 < 256 ==> b1 << 48 == b1 * 0x1_0000_0000_0000) by (bit_vector);
        assert(b2 < 256 ==> b2 << 40 == b2 * 0x100_0000_0000) by (bit_vector);
        assert(b3 < 256 ==> b3 << 32 == b3 * 0x1_0000_0000) by (bit_vector);
        assert(b4 < 256 ==> b4 << 24 == b4 * 0x100_0000) by (bit_vector);
        assert(b5 < 256 ==> b5 << 16 == b5 * 0x1_0000) by (bit_vector);
        assert(b6 < 256 ==> b6 << 8 == b6 * 0x100) by (bit_vector);
        let s = bytes@.subrange(0, 8);
        let s7 = s.drop_last();
        let s6 = s7.drop_last();
        let s5 = s6.drop_last();
        let s4 = s5.drop_last();
        let s3 = s4.drop_last();
        let s2 = s3.drop_last();
        let s1 = s2.drop_last();
        assert(be_value(s1.drop_last()) == 0);
        assert(be_value(s1) == b0);
        assert(be_value(s2) == be_value(s1) * 256 + b1);
        assert(be_value(s3) == be_value(s2) * 256 + b2);
        assert(be_value(s4) == be_value(s3) * 256 + b3);
        assert(be_value(s5) == be_value(s4) * 256 + b4);
        assert(be_value(s6) == be_value(s5) * 256 + b5);
        assert(be_value(s7) == be_value(s6) * 256 + b6);
        assert(be_value(s) == be_value(s7) * 256 + b7);
    }
    b7 + (b6 << 8) + (b5 << 16) + (b4 << 24) + (b3 << 32) + (b2 << 40) + (b1 << 48) + (b0 << 56)
}

/// The two bytes at `at` as a big-endian number.
fn as_u16(bytes: &[u8], at: usize) -> (r: u16)
    requires
        at + 2 <= bytes@.len(),
    ensures
        r == be_value(bytes@.subrange(at as int, at + 2)),
{
    let hi = bytes[at] as u16;
    let lo = bytes[at + 1] as u16;
    proof {
        assert(hi < 256 ==> hi << 8 == hi * 256) by (bit_vector);
        lemma_be_value_pair(bytes@.subrange(at as int, at + 2));
    }
    lo + (hi << 8)
}

impl<'a> MoldReader<'a> {
    /// A reader of the packet `data`. Any bytes are taken; whether they hold
    /// a header is told by [`MoldReader::has_header`].
    pub fn new(data: &'a [u8]) -> (r: Self)
        ensures
            r@ == data@,
    {
        Self { data: data }
    }

    /// Whether the packet is long enough to hold a header.
    pub fn has_header(&self) -> (r: bool)
        ensures
            r == (self@.len() >= MOLD_HEADER_LEN),
    {
        self.data.len() >= MOLD_HEADER_LEN
    }

    /// The messages of the packet from the first, one per call of
    /// [`MoldIter::next`].
    pub fn iter(&self) -> (it: MoldIter<'a>)
        ensures
            it.pending() == packet_messages(self@),
    {
        MoldIter { data: self.data, bytes_eaten: 0, msg_count: 0 }
    }

    /// The messages of the packet, all at once and in order.
    pub fn messages(&self) -> (r: Vec<&'a [u8]>)
        ensures
            r@.len() == packet_messages(self@).len(),
            forall|i: int| 0 <= i < r@.len() ==> (#[trigger] r@[i])@ == packet_messages(self@)[i],
    {
        let mut it = self.iter();
        let mut out: Vec<&'a [u8]> = Vec::new();
        let ghost all = packet_messages(self@);
        loop
            invariant
                all == packet_messages(self@),
                out@.len() + it.pending().len() == all.len(),
                forall|i: int| 0 <= i < out@.len() ==> (#[trigger] out@[i])@ == all[i],
                forall|i: int|
                    0 <= i < it.pending().len() ==> it.pending()[i] == all[out@.len() + i],
            decreases it.pending().len(),
        {
            match it.next() {
                Some(msg) => {
                    out.push(msg);
                },
                None => {
                    return out;
                },
            }
        }
    }

    /// The message count that the header announces.
    pub fn len(&self) -> (r: usize)
        requires
            self@.len() >= MOLD_HEADER_LEN,
        ensures
            r == packet_count(self@),
    {
        as_u16(self.data, 18) as usize
    }

    /// The sequence number of the first message of the packet.
    pub fn seqno(&self) -> (r: u64)
        requires
            self@.len() >= MOLD_HEADER_LEN,
        ensures
            r == packet_seqno(self@),
    {
        assert(self.data@.len() == self.data.len());
        let tail = &self.data[10..self.data.len()];
        assert(tail@.subrange(0, 8) =~= self.data@.subrange(10, 18));
        as_u64(tail)
    }

    /// The session that the packet belongs to.
    pub fn session(&self) -> (r: &'a [u8])
        requires
            self@.len() >= MOLD_HEADER_LEN,
        ensures
            r@ == packet_session(self@),
    {
        &self.data[0..10]
    }
}

/// A position in a packet that is being read message by message.
pub struct MoldIter<'a> {
    data: &'a [u8],
    bytes_eaten: usize,
    msg_count: u16,
}

impl<'a> MoldIter<'a> {
    #[verifier::type_invariant]
    spec fn inv(&self) -> bool {
        self.bytes_eaten == 0 || MOLD_HEADER_LEN <= self.bytes_eaten <= self.data@.len()
    }

    /// The messages still to come, in order.
    pub closed spec fn pending(&self) -> Seq<Seq<u8>> {
        if self.bytes_eaten == 0 {
            packet_messages(self.data@)
        } else {
            frames(self.data@.skip(self.bytes_eaten as int), self.msg_count as nat)
        }
    }

    /// The next message, or `None` where the packet has no more to give: the
    /// announced count is used up, fewer than two bytes are left, or the next
    /// length announces more bytes than are left. After `None` every further
    /// call gives `None`.
    pub fn next(&mut self) -> (r: Option<&'a [u8]>)
        ensures
            old(self).pending().len() == 0 ==> r is None && final(self).pending().len() == 0,
            old(self).pending().len() > 0 ==> r is Some && r->Some_0@ == old(self).pending()[0]
                && final(self).pending() == old(self).pending().skip(1),
    {
        proof {
            use_type_invariant(&*self);
        }
        assert(self.data@.len() == self.data.len());
        if self.bytes_eaten == 0 {
            if self.data.len() < MOLD_HEADER_LEN {
                return None;
            }
            let count = as_u16(self.data, 18);
            self.msg_count = count;
            self.bytes_eaten = MOLD_HEADER_LEN;
        }
        let bytes_remaining = self.data.len() - self.bytes_eaten;
        if bytes_remaining < 2 || self.msg_count == 0 {
            return None;
        }
        let offset = self.bytes_eaten;
        let msglen = as_u16(self.data, offset) as usize;
        let ghost body = self.data@.skip(offset as int);
        assert(body.subrange(0, 2) =~= self.data@.subrange(offset as int, offset + 2));
        if bytes_remaining < msglen + 2 {
            return None;
        }
        let msg = &self.data[offset + 2..offset + 2 + msglen];
        assert(msg@ =~= body.subrange(2, 2 + msglen));
        assert(self.data@.skip(offset + 2 + msglen) =~= body.skip(2 + msglen));
        assert((seq![msg@] + frames(body.skip(2 + msglen), (self.msg_count - 1) as nat)).skip(1)
            =~= frames(body.skip(2 + msglen), (self.msg_count - 1) as nat));
        self.msg_count = self.msg_count - 1;
        self.bytes_eaten = offset + 2 + msglen;
        Some(msg)
    }
}

/// What a [`MoldWriter`] holds: the header fields and the messages added so
/// far.
pub struct MoldWriterView {
    pub session: Seq<u8>,
    pub seqno: u64,
    pub messages: Seq<Seq<u8>>,
}

impl MoldWriterView {
    /// How many bytes of the packet are still free.
    pub open spec fn room(self) -> int {
        MOLD_PACKET_LEN - MOLD_HEADER_LEN - framed(self.messages).len()
    }

    /// Whether a message of `n` bytes, with the two bytes of its length, can
    /// still be added.
    pub open spec fn fits(self, n: nat) -> bool {
        n + 2 <= self.room()
    }

    /// The packet as it goes out: header and messages.
    pub open spec fn packet(self) -> Seq<u8> {
        packet(self.session, self.seqno, self.messages)
    }
}

/// A batch packet that is being put together, at most `MOLD_PACKET_LEN` bytes
/// long.
pub struct MoldWriter {
    buf: [u8; 1400],
    bytes_written: usize,
    msgs: Ghost<Seq<Seq<u8>>>,
}

impl View for MoldWriter {
    type V = MoldWriterView;

    closed spec fn view(&self) -> MoldWriterView {
        MoldWriterView {
            session: self.buf@.subrange(0, 10),
            seqno: u64_at(self.buf@, 10),
            messages: self.msgs@,
        }
    }
}

/// Overwrites `buf` from `at` on with `src`.
fn store(buf: &mut [u8; 1400], at: usize, src: &[u8])
    requires
        at + src@.len() <= 1400,
    ensures
        final(buf)@ == old(buf)@.subrange(0, at as int) + src@ + old(buf)@.subrange(
            at + src@.len(),
            1400,
        ),
{
    let ghost before = buf@;
    assert(src@.len() == src.len());
    let mut i: usize = 0;
    assert(buf@ =~= before.subrange(0, at as int) + src@.subrange(0, 0) + before.subrange(
        at as int,
        1400,
    ));
    while i < src.len()
        invariant
            before.len() == 1400,
            i <= src@.len(),
            src@.len() == src.len(),
            at + src@.len() <= 1400,
            buf@ == before.subrange(0, at as int) + src@.subrange(0, i as int) + before.subrange(
                at + i,
                1400,
            ),
        decreases src@.len() - i,
    {
        buf[at + i] = src[i];
        i = i + 1;
        assert(buf@ =~= before.subrange(0, at as int) + src@.subrange(0, i as int)
            + before.subrange(at + i, 1400));
    }
    assert(src@.subrange(0, i as int) =~= src@);
}

impl MoldWriter {
    /// The buffer agrees with the messages added so far: the header holds
    /// their count, and they follow it, framed, in order.
    pub closed spec fn wf(&self) -> bool {
        &&& self.bytes_written + MOLD_HEADER_LEN <= MOLD_PACKET_LEN
        &&& self.msgs@.len() <= 0xffff
        &&& all_short(self.msgs@)
        &&& self.buf@.subrange(18, 20) == be_bytes(self.msgs@.len(), 2)
        &&& self.bytes_written == framed(self.msgs@).len()
        &&& self.buf@.subrange(20, 20 + self.bytes_written) == framed(self.msgs@)
    }

    /// A well-formed writer holds a session of ten bytes and messages that a
    /// packet can carry, and never more than the packet has room for.
    pub proof fn lemma_view_bounds(&self)
        requires
            self.wf(),
        ensures
            self@.session.len() == 10,
            self@.messages.len() <= 0xffff,
            all_short(self@.messages),
            0 <= self@.room() <= MOLD_PACKET_LEN - MOLD_HEADER_LEN,
    {
    }

    /// A reader of the packet finds what the writer holds: the session, the
    /// sequence number, the count and every message, in order.
    pub proof fn lemma_reads_back(&self)
        requires
            self.wf(),
        ensures
            packet_session(self@.packet()) == self@.session,
            packet_seqno(self@.packet()) == self@.seqno,
            packet_count(self@.packet()) == self@.messages.len(),
            packet_messages(self@.packet()) == self@.messages,
    {
        lemma_packet_read_back(self@.session, self@.seqno, self@.messages);
    }

    /// An empty packet for the given session, whose first message will have
    /// the sequence number `seqno`. The session must be ten bytes long.
    pub fn new(session: &str, seqno: u64) -> (r: Self)
        requires
            session.spec_bytes().len() == 10,
        ensures
            r.wf(),
            r@ == (MoldWriterView { session: session.spec_bytes(), seqno, messages: Seq::empty() }),
    {
        let mut ans = Self { buf: [0u8; 1400], bytes_written: 0, msgs: Ghost(Seq::empty()) };
        ans.set_message_count(0);
        proof {
            lemma_be_bytes_len(0, 2);
            assert(ans.buf@.subrange(18, 20) =~= be_bytes(0, 2));
            assert(ans.buf@.subrange(20, 20) =~= framed(ans.msgs@));
        }
        ans.set_session(session).set_seqno(seqno);
        ans
    }

    /// Sets the session, which must be ten bytes long.
    pub fn set_session(&mut self, what: &str) -> (ret: &mut Self)
        requires
            old(self).wf(),
            what.spec_bytes().len() == 10,
        ensures
            ret.wf(),
            ret@ == (MoldWriterView { session: what.spec_bytes(), ..old(self)@ }),
            *final(self) == *final(ret),
    {
        let ghost before = self.buf@;
        store(&mut self.buf, 0, what.as_bytes());
        proof {
            assert(self.buf@.subrange(0, 10) =~= what.spec_bytes());
            assert(self.buf@.subrange(10, 18) =~= before.subrange(10, 18));
            assert(self.buf@.subrange(18, 20) =~= before.subrange(18, 20));
            assert(self.buf@.subrange(20, 20 + self.bytes_written) =~= before.subrange(
                20,
                20 + self.bytes_written,
            ));
        }
        self
    }

    /// Sets the sequence number of the first message.
    pub fn set_seqno(&mut self, seqno: u64) -> (ret: &mut Self)
        requires
            old(self).wf(),
        ensures
            ret.wf(),
            ret@ == (MoldWriterView { seqno, ..old(self)@ }),
            *final(self) == *final(ret),
    {
        let ghost before = self.buf@;
        let digits = u64_to_be(seqno);
        store(&mut self.buf, 10, &digits);
        proof {
            lemma_be_bytes_len(seqno as nat, 8);
            lemma_pow256_values();
            lemma_value_of_bytes_exact(seqno as nat, 8);
            assert(self.buf@.subrange(0, 10) =~= before.subrange(0, 10));
            assert(self.buf@.subrange(10, 18) =~= be_bytes(seqno as nat, 8));
            assert(self.buf@.subrange(18, 20) =~= before.subrange(18, 20));
            assert(self.buf@.subrange(20, 20 + self.bytes_written) =~= before.subrange(
                20,
                20 + self.bytes_written,
            ));
        }
        self
    }

    /// Overwrites the message count of the header, and nothing else.
    fn set_message_count(&mut self, msg_count: u16) -> (ret: &mut Self)
        ensures
            ret.buf@ == old(self).buf@.subrange(0, 18) + be_bytes(msg_count as nat, 2) + old(
                self,
            ).buf@.subrange(20, 1400),
            ret.bytes_written == old(self).bytes_written,
            ret.msgs == old(self).msgs,
            *final(self) == *final(ret),
    {
        let digits = u16_to_be(msg_count);
        store(&mut self.buf, 18, &digits);
        proof {
            lemma_be_bytes_len(msg_count as nat, 2);
        }
        self
    }

    /// Raises the message count of the header by one.
    fn increment_count(&mut self)
        requires
            be_value(old(self).buf@.subrange(18, 20)) < 0xffff,
        ensures
            final(self).buf@ == old(self).buf@.subrange(0, 18) + be_bytes(
                be_value(old(self).buf@.subrange(18, 20)) + 1,
                2,
            ) + old(self).buf@.subrange(20, 1400),
            final(self).bytes_written == old(self).bytes_written,
            final(self).msgs == old(self).msgs,
    {
        let msg_count = as_u16(&self.buf, 18);
        self.set_message_count(msg_count + 1);
    }

    /// Adds `what` to the packet where it fits, and does nothing where it
    /// does not.
    pub fn add_message(&mut self, what: &[u8]) -> (ret: &mut Self)
        requires
            old(self).wf(),
        ensures
            ret.wf(),
            *final(self) == *final(ret),
            old(self)@.fits(what@.len()) ==> ret@ == (MoldWriterView {
                messages: old(self)@.messages.push(what@),
                ..old(self)@
            }),
            !old(self)@.fits(what@.len()) ==> *ret == *old(self),
    {
        assert(what@.len() == what.len());
        if !self.can_fit(what.len()) {
            return self;
        }
        let ghost before = *self;
        proof {
            lemma_framed_len(self.msgs@);
            lemma_pow256_values();
            lemma_value_of_bytes_exact(self.msgs@.len(), 2);
        }
        self.increment_count();
        let msg_size = what.len() as u16;
        let at = MOLD_HEADER_LEN + self.bytes_written;
        let digits = u16_to_be(msg_size);
        store(&mut self.buf, at, &digits);
        store(&mut self.buf, at + 2, what);
        self.bytes_written = self.bytes_written + (what.len() + 2);
        proof {
            self.msgs@ = before.msgs@.push(what@);
            lemma_be_bytes_len(msg_size as nat, 2);
            lemma_be_bytes_len(before.msgs@.len() + 1, 2);
            lemma_framed_push(before.msgs@, what@);
            assert(self.buf@.subrange(0, 10) =~= before.buf@.subrange(0, 10));
            assert(self.buf@.subrange(10, 18) =~= before.buf@.subrange(10, 18));
            assert(self.buf@.subrange(18, 20) =~= be_bytes(before.msgs@.len() + 1, 2));
            assert(self.buf@.subrange(20, 20 + self.bytes_written) =~= before.buf@.subrange(
                20,
                at as int,
            ) + frame(what@));
            assert(all_short(self.msgs@));
        }
        self
    }

    /// Adds a message of `msg_size` bytes that `writer` fills in place, where
    /// it fits, and does nothing where it does not; `writer` is then not
    /// called. The message is what `writer` leaves in the bytes it is handed,
    /// which hold whatever the buffer held there before.
    pub fn write_message<F: FnOnce(&mut [u8])>(&mut self, msg_size: u16, writer: F) -> (ret:
        &mut Self)
        requires
            old(self).wf(),
            forall|loc: &mut [u8]|
                loc@.len() == msg_size ==> #[trigger] call_requires(writer, (loc,)),
        ensures
            ret.wf(),
            *final(self) == *final(ret),
            !old(self)@.fits(msg_size as nat) ==> *ret == *old(self),
            old(self)@.fits(msg_size as nat) ==> {
                &&& ret@.session == old(self)@.session
                &&& ret@.seqno == old(self)@.seqno
                &&& ret@.messages.len() == old(self)@.messages.len() + 1
                &&& ret@.messages.drop_last() == old(self)@.messages
                &&& ret@.messages.last().len() == msg_size
                &&& exists|loc: &mut [u8]|
                    loc@.len() == msg_size && final(loc)@ == ret@.messages.last()
                        && #[trigger] call_ensures(writer, (loc,), ())
            },
    {
        if !self.can_fit(msg_size as usize) {
            return self;
        }
        let ghost before = *self;
        proof {
            lemma_framed_len(self.msgs@);
            lemma_pow256_values();
            lemma_value_of_bytes_exact(self.msgs@.len(), 2);
        }
        self.increment_count();
        let at = MOLD_HEADER_LEN + self.bytes_written;
        let digits = u16_to_be(msg_size);
        store(&mut self.buf, at, &digits);
        let ghost filled = self.buf@;
        let ghost mut written: Seq<u8> = Seq::empty();
        {
            let whole: &mut [u8] = &mut self.buf;
            let (head, rest) = whole.split_at_mut(at + 2);
            let ghost h = head@;
            let (loc, tail) = rest.split_at_mut(msg_size as usize);
            let ghost t = tail@;
            writer(loc);
            proof {
                written = loc@;
                assert(h.len() == at + 2);
                assert(t.len() == 1400 - at - 2 - msg_size);
                assert(exists|l: &mut [u8]|
                    l@.len() == msg_size && final(l)@ == written && #[trigger] call_ensures(
                        writer,
                        (l,),
                        (),
                    ));
            }
        }
        let ghost msg = self.buf@.subrange(at + 2, at + 2 + msg_size);
        assert(self.buf@ =~= filled.subrange(0, at + 2) + written + filled.subrange(
            at + 2 + msg_size,
            1400,
        ));
        assert(msg =~= written);
        self.bytes_written = self.bytes_written + (msg_size as usize + 2);
        proof {
            self.msgs@ = before.msgs@.push(msg);
            lemma_be_bytes_len(msg_size as nat, 2);
            lemma_be_bytes_len(before.msgs@.len() + 1, 2);
            lemma_framed_push(before.msgs@, msg);
            assert(self.buf@.subrange(0, at + 2) =~= filled.subrange(0, at + 2));
            assert(self.buf@.subrange(0, 10) =~= before.buf@.subrange(0, 10));
            assert(self.buf@.subrange(10, 18) =~= before.buf@.subrange(10, 18));
            assert(self.buf@.subrange(18, 20) =~= be_bytes(before.msgs@.len() + 1, 2));
            assert(self.buf@.subrange(20, 20 + self.bytes_written) =~= before.buf@.subrange(
                20,
                at as int,
            ) + frame(msg));
            assert(all_short(self.msgs@));
            assert(self.msgs@.drop_last() =~= before.msgs@);
        }
        self
    }

    /// How many bytes of the packet are still free.
    pub fn size_remaining(&self) -> (r: usize)
        requires
            self.wf(),
        ensures
            r == self@.room(),
    {
        self.buf.len() - (self.bytes_written + MOLD_HEADER_LEN)
    }

    /// Whether a message of `msg_size` bytes can still be added.
    pub fn can_fit(&self, msg_size: usize) -> (r: bool)
        requires
            self.wf(),
        ensures
            r == self@.fits(msg_size as nat),
    {
        let free = self.size_remaining();
        free >= 2 && msg_size <= free - 2
    }

    /// The packet as it stands: the header and the messages added so far,
    /// without the unused rest of the buffer.
    pub fn data(&self) -> (r: &[u8])
        requires
            self.wf(),
        ensures
            r@ == self@.packet(),
    {
        let end = self.bytes_written + MOLD_HEADER_LEN;
        let whole: &[u8] = &self.buf;
        let r = &whole[0..end];
        proof {
            lemma_be_value_bound(self.buf@.subrange(10, 18));
            lemma_pow256_values();
            lemma_bytes_of_value(self.buf@.subrange(10, 18));
            lemma_be_bytes_len(self.msgs@.len(), 2);
            assert(r@ =~= self.buf@.subrange(0, 10) + self.buf@.subrange(10, 18)
                + self.buf@.subrange(18, 20) + self.buf@.subrange(20, 20 + self.bytes_written));
        }
        r
    }

    /// Empties the packet. The session and the sequence number stay.
    pub fn reset(&mut self)
        requires
            old(self).wf(),
        ensures
            final(self).wf(),
            final(self)@ == (MoldWriterView { messages: Seq::empty(), ..old(self)@ }),
    {
        let ghost before = self.buf@;
        self.set_message_count(0);
        self.bytes_written = 0;
        proof {
            self.msgs@ = Seq::empty();
            lemma_be_bytes_len(0, 2);
            assert(self.buf@.subrange(0, 10) =~= before.subrange(0, 10));
            assert(self.buf@.subrange(10, 18) =~= before.subrange(10, 18));
            assert(self.buf@.subrange(18, 20) =~= be_bytes(0, 2));
            assert(self.buf@.subrange(20, 20) =~= framed(self.msgs@));
        }
    }
}

} // verus!
