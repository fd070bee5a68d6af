//! Reading one datagram through buffers that may be smaller than it.

use vstd::prelude::*;

verus! {

/// The part of a received datagram that no read has consumed yet: the bytes
/// from `start` up to `len` of the buffer that holds it.
#[derive(Clone, Copy, Debug, PartialEq, Eq, Structural)]
pub struct Leftover {
    pub start: usize,
    pub len: usize,
}

/// What one read did.
#[derive(Clone, Copy, Debug, PartialEq, Eq, Structural)]
pub struct ReadStep {
    /// How many bytes went into the reader's buffer.
    pub copied: usize,
    /// What is left of the datagram. `None` means that it is drained and its
    /// buffer goes back to the pool.
    pub rest: Option<Leftover>,
}

/// How many bytes a read into a buffer of `room` bytes takes from a datagram
/// of `len` bytes of which the first `start` are consumed.
pub open spec fn take_len(start: int, len: int, room: int) -> int {
    if len - start <= room {
        len - start
    } else {
        room
    }
}

/// What is left of `cursor` after a read into a buffer of `room` bytes.
pub open spec fn rest_after(cursor: Leftover, room: int) -> Option<Leftover> {
    let end = cursor.start + take_len(cursor.start as int, cursor.len as int, room);
    if end < cursor.len {
        Some(Leftover { start: end as usize, len: cursor.len })
    } else {
        None
    }
}

/// How far into a datagram of `len` bytes a run of reads gets, `rooms` being
/// the sizes of the buffers read into, in order.
pub open spec fn position_after(len: int, rooms: Seq<nat>) -> int
    decreases rooms.len(),
{
    if rooms.len() == 0 {
        0
    } else {
        let at = position_after(len, rooms.drop_last());
        at + take_len(at, len, rooms.last() as int)
    }
}

/// The bytes that such a run of reads hands out, one read after the other.
pub open spec fn bytes_after(datagram: Seq<u8>, rooms: Seq<nat>) -> Seq<u8>
    decreases rooms.len(),
{
    if rooms.len() == 0 {
        Seq::empty()
    } else {
        bytes_after(datagram, rooms.drop_last()) + datagram.subrange(
            position_after(datagram.len() as int, rooms.drop_last()),
            position_after(datagram.len() as int, rooms),
        )
    }
}

/// What a run of reads leaves of a datagram of `len` bytes: the cursor that
/// the next read goes on from, or `None` once the datagram is drained and its
/// buffer has gone back to the pool. Before any read it is the whole datagram.
pub open spec fn cursor_after(len: usize, rooms: Seq<nat>) -> Option<Leftover>
    decreases rooms.len(),
{
    if rooms.len() == 0 {
        Some(Leftover { start: 0, len })
    } else {
        match cursor_after(len, rooms.drop_last()) {
            Some(cursor) => rest_after(cursor, rooms.last() as int),
            None => None,
        }
    }
}

/// The sum of the buffer sizes.
pub open spec fn total_room(rooms: Seq<nat>) -> nat
    decreases rooms.len(),
{
    if rooms.len() == 0 {
        0
    } else {
        total_room(rooms.drop_last()) + rooms.last()
    }
}

/// How often a run of reads sends the datagram's buffer back to the pool. A
/// read counts when it is served from this datagram (it is the first, or the
/// reads before it left bytes) and leaves none.
pub open spec fn recycles_after(len: int, rooms: Seq<nat>) -> nat
    decreases rooms.len(),
{
    if rooms.len() == 0 {
        0
    } else {
        let before = rooms.drop_last();
        let served = before.len() == 0 || position_after(len, before) < len;
        let drained = position_after(len, rooms) == len;
        recycles_after(len, before) + if served && drained { 1nat } else { 0nat }
    }
}

/// The least number of buffers of `room` bytes that hold `len` bytes.
pub open spec fn reads_needed(len: nat, room: nat) -> nat
    recommends
        room > 0,
{
    ((len + room - 1) / (room as int)) as nat
}

impl Leftover {
    /// A cursor lies within the buffer that holds its datagram.
    pub open spec fn fits(self, held: int) -> bool {
        self.start <= self.len <= held
    }

    /// The cursor over a datagram of `len` bytes that nobody has read from.
    pub fn whole(len: usize) -> (cursor: Leftover)
        ensures
            cursor == (Leftover { start: 0, len }),
    {
        Leftover { start: 0, len }
    }
}

/// Serves one read from a datagram: copies as many of the unread bytes as
/// `buffer` takes to its front, and says what remains.
pub fn read_from(datagram: &[u8], cursor: Leftover, buffer: &mut [u8]) -> (step: ReadStep)
    requires
        cursor.fits(datagram@.len() as int),
    ensures
        step.copied == take_len(cursor.start as int, cursor.len as int, old(buffer)@.len() as int),
        step.rest == rest_after(cursor, old(buffer)@.len() as int),
        final(buffer)@.len() == old(buffer)@.len(),
        final(buffer)@.subrange(0, step.copied as int) == datagram@.subrange(
            cursor.start as int,
            cursor.start + step.copied,
        ),
        final(buffer)@.subrange(step.copied as int, old(buffer)@.len() as int) == old(
            buffer,
        )@.subrange(step.copied as int, old(buffer)@.len() as int),
{
    let unread: usize = cursor.len - cursor.start;
    let room: usize = buffer.len();
    let copied: usize = if unread <= room { unread } else { room };
    let mut i: usize = 0;
    while i < copied
        invariant
            i <= copied,
            copied <= unread,
            copied <= room,
            unread == cursor.len - cursor.start,
            cursor.fits(datagram@.len() as int),
            buffer@.len() == room,
            room == old(buffer)@.len(),
            forall|k: int| 0 <= k < i ==> buffer@[k] == datagram@[cursor.start + k],
            forall|k: int| i <= k < room ==> buffer@[k] == old(buffer)@[k],
        decreases copied - i,
    {
        buffer[i] = datagram[cursor.start + i];
        i += 1;
    }
    let end: usize = cursor.start + copied;
    assert(buffer@.subrange(0, copied as int) =~= datagram@.subrange(
        cursor.start as int,
        cursor.start + copied,
    ));
    assert(buffer@.subrange(copied as int, room as int) =~= old(buffer)@.subrange(
        copied as int,
        room as int,
    ));
    if end < cursor.len {
        ReadStep { copied, rest: Some(Leftover { start: end, len: cursor.len }) }
    } else {
        ReadStep { copied, rest: None }
    }
}

/// A run of reads never passes the end of the datagram, and hands out the
/// datagram's bytes from its start up to where the run got, in order and
/// without a gap.
pub proof fn lemma_reads_concatenate(datagram: Seq<u8>, rooms: Seq<nat>)
    ensures
        0 <= position_after(datagram.len() as int, rooms) <= datagram.len(),
        bytes_after(datagram, rooms) == datagram.subrange(
            0,
            position_after(datagram.len() as int, rooms),
        ),
    decreases rooms.len(),
{
    if rooms.len() > 0 {
        lemma_reads_concatenate(datagram, rooms.drop_last());
        assert(bytes_after(datagram, rooms) =~= datagram.subrange(
            0,
            position_after(datagram.len() as int, rooms),
        ));
    } else {
        assert(bytes_after(datagram, rooms) =~= datagram.subrange(0, 0));
    }
}

/// A run of reads gets as far as its buffers have room, or to the end.
pub proof fn lemma_position_bound(len: nat, rooms: Seq<nat>)
    ensures
        0 <= position_after(len as int, rooms) <= len,
        total_room(rooms) >= len ==> position_after(len as int, rooms) == len,
        total_room(rooms) < len ==> position_after(len as int, rooms) == total_room(rooms),
    decreases rooms.len(),
{
    if rooms.len() > 0 {
        lemma_position_bound(len, rooms.drop_last());
    }
}

/// Reads whose buffers together hold at least as many bytes as the datagram
/// hand out exactly the datagram.
pub proof fn lemma_reads_return_datagram(datagram: Seq<u8>, rooms: Seq<nat>)
    requires
        total_room(rooms) >= datagram.len(),
    ensures
        bytes_after(datagram, rooms) == datagram,
{
    lemma_reads_concatenate(datagram, rooms);
    lemma_position_bound(datagram.len(), rooms);
    assert(datagram.subrange(0, datagram.len() as int) =~= datagram);
}

/// With buffers of at least `room` bytes each, `reads_needed(len, room)` reads
/// drain a datagram of `len` bytes, and so does any longer run.
pub proof fn lemma_reads_suffice(len: nat, rooms: Seq<nat>, room: nat)
    requires
        room > 0,
        forall|i: int| 0 <= i < rooms.len() ==> rooms[i] >= room,
        rooms.len() >= reads_needed(len, room),
    ensures
        position_after(len as int, rooms) == len,
{
    lemma_total_room_grows(rooms, room);
    let k = rooms.len() as int;
    let l = len as int;
    let r = room as int;
    assert(k * r >= l) by (nonlinear_arith)
        requires
            r > 0,
            l >= 0,
            k >= (l + r - 1) / r,
    {
        assert(((l + r - 1) / r) * r + (l + r - 1) % r == l + r - 1);
        assert((l + r - 1) % r < r);
        assert(k * r >= ((l + r - 1) / r) * r);
    }
    lemma_position_bound(len, rooms);
}

/// Buffers of at least `room` bytes each have at least `room` bytes of room
/// for each of them.
proof fn lemma_total_room_grows(rooms: Seq<nat>, room: nat)
    requires
        forall|i: int| 0 <= i < rooms.len() ==> rooms[i] >= room,
    ensures
        total_room(rooms) >= rooms.len() * room,
    decreases rooms.len(),
{
    if rooms.len() > 0 {
        let before = rooms.drop_last();
        assert forall|i: int| 0 <= i < before.len() implies before[i] >= room by {
            assert(before[i] == rooms[i]);
        }
        lemma_total_room_grows(before, room);
        assert(rooms.len() * room == before.len() * room + room) by (nonlinear_arith)
            requires
                rooms.len() == before.len() + 1,
        ;
    } else {
        assert(rooms.len() * room == 0) by (nonlinear_arith)
            requires
                rooms.len() == 0,
        ;
    }
}

/// A run of reads sends the buffer back to the pool once when it drains the
/// datagram, and not at all when it does not: never twice.
pub proof fn lemma_recycled_once(len: nat, rooms: Seq<nat>)
    ensures
        recycles_after(len as int, rooms) == if rooms.len() > 0 && position_after(
            len as int,
            rooms,
        ) == len {
            1nat
        } else {
            0nat
        },
    decreases rooms.len(),
{
    if rooms.len() > 0 {
        lemma_recycled_once(len, rooms.drop_last());
        lemma_position_bound(len, rooms.drop_last());
        lemma_position_bound(len, rooms);
    }
}

/// The cursor that reads hand from one to the next stands where the run of
/// reads got: it is kept as long as bytes are left, and given up at the read
/// that takes the last.
pub proof fn lemma_cursor_follows_position(len: usize, rooms: Seq<nat>)
    ensures
        cursor_after(len, rooms) == if rooms.len() == 0 || position_after(len as int, rooms)
            < len {
            Some(Leftover { start: position_after(len as int, rooms) as usize, len })
        } else {
            None
        },
    decreases rooms.len(),
{
    if rooms.len() > 0 {
        lemma_cursor_follows_position(len, rooms.drop_last());
        lemma_position_bound(len as nat, rooms.drop_last());
        lemma_position_bound(len as nat, rooms);
    }
}

/// Reading a datagram through buffers that together hold it, however small
/// each is, gives the datagram's bytes in order, leaves no cursor behind, and
/// sends the buffer back to the pool exactly once.
pub proof fn lemma_leftover_correctness(datagram: Seq<u8>, rooms: Seq<nat>)
    requires
        rooms.len() > 0,
        total_room(rooms) >= datagram.len(),
        datagram.len() <= usize::MAX,
    ensures
        bytes_after(datagram, rooms) == datagram,
        recycles_after(datagram.len() as int, rooms) == 1,
        cursor_after(datagram.len() as usize, rooms) is None,
{
    lemma_reads_return_datagram(datagram, rooms);
    lemma_position_bound(datagram.len(), rooms);
    lemma_recycled_once(datagram.len(), rooms);
    lemma_cursor_follows_position(datagram.len() as usize, rooms);
}

} // verus!
