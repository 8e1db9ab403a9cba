//! Buffered data, as it came in.

use crate::buffer::{bytes_advance, bytes_of, bytes_slice};
use bytes::Bytes;
use std::collections::VecDeque;
use vstd::prelude::*;

verus! {

/// A sequence of [`Bytes`] values.
///
/// [`Chunks::len`] considers all [`Bytes`] elements and computes the total
/// result, e.g. the length of all bytes by summing up the lengths of all
/// [`Bytes`] elements.
#[derive(Debug)]
pub struct Chunks {
    seq: VecDeque<Bytes>,
}

impl View for Chunks {
    type V = Seq<Seq<u8>>;

    closed spec fn view(&self) -> Seq<Seq<u8>> {
        self.seq@.map_values(|b: Bytes| bytes_of(b))
    }
}

/// The octets of some chunks, one after the other.
pub open spec fn octets(c: Seq<Seq<u8>>) -> Seq<u8>
    decreases c.len(),
{
    if c.len() == 0 {
        Seq::empty()
    } else {
        octets(c.drop_last()) + c.last()
    }
}

/// How many octets some chunks have together.
pub open spec fn total(c: Seq<Seq<u8>>) -> nat {
    octets(c).len()
}

/// What is left of some chunks once as many octets as possible, but at most `n`, were read.
///
/// Chunks without octets are left out up to the first one with some. A chunk stays if the last octet
/// that was read is its last.
pub open spec fn unread(c: Seq<Seq<u8>>, n: nat) -> Seq<Seq<u8>>
    decreases c.len(),
{
    if c.len() == 0 {
        c
    } else if c[0].len() == 0 {
        unread(c.skip(1), n)
    } else if c[0].len() < n {
        unread(c.skip(1), (n - c[0].len()) as nat)
    } else {
        c.update(0, c[0].skip(n as int))
    }
}

/// How many octets can be read into `room` octets.
pub open spec fn readable(c: Seq<Seq<u8>>, room: nat) -> nat {
    if total(c) < room {
        total(c)
    } else {
        room
    }
}

/// A slice once the first `n` octets of some chunks were written to its beginning.
pub open spec fn filled(buf: Seq<u8>, c: Seq<Seq<u8>>, n: nat) -> Seq<u8> {
    octets(c).take(n as int) + buf.skip(n as int)
}

/// What is read is what came first, in its order, and the rest of the slice is left alone.
pub proof fn law_octets_are_read_in_order(buf: Seq<u8>, c: Seq<Seq<u8>>, n: nat, i: int)
    requires
        n <= octets(c).len(),
        n <= buf.len(),
        0 <= i < buf.len(),
    ensures
        filled(buf, c, n).len() == buf.len(),
        i < n ==> filled(buf, c, n)[i] == octets(c)[i],
        i >= n ==> filled(buf, c, n)[i] == buf[i],
{
}

/// The octets of some chunks are those of the first chunk, followed by those of the others; and as many
/// are read as there are and as there is room for.
pub proof fn law_chunks_come_one_after_the_other(c: Seq<Seq<u8>>, room: nat)
    ensures
        c.len() == 0 ==> octets(c).len() == 0,
        c.len() > 0 ==> octets(c) == c[0] + octets(c.skip(1)),
        total(c) == octets(c).len(),
        readable(c, room) <= room && readable(c, room) <= octets(c).len(),
        readable(c, room) == room || readable(c, room) == octets(c).len(),
{
    if c.len() > 0 {
        lemma_octets_front(c);
    }
}

/// What was buffered first is read first: a new chunk comes after everything that is there.
pub proof fn law_pushed_last_read_last(c: Seq<Seq<u8>>, x: Seq<u8>)
    ensures
        octets(c.push(x)) == octets(c) + x,
{
    assert(c.push(x).drop_last() =~= c);
}

/// Reading loses nothing, makes nothing up and changes no order: what is read, followed by what is
/// left, is what was there.
pub proof fn law_reading_loses_nothing(c: Seq<Seq<u8>>, room: nat)
    ensures
        octets(c) == octets(c).take(readable(c, room) as int) + octets(unread(c, room)),
    decreases c.len(),
{
    if c.len() > 0 {
        let rest = c.skip(1);
        lemma_octets_front(c);
        if c[0].len() == 0 {
            law_reading_loses_nothing(rest, room);
            assert(octets(c) =~= octets(rest));
        } else if c[0].len() < room {
            let room2 = (room - c[0].len()) as nat;
            law_reading_loses_nothing(rest, room2);
            assert(octets(c).take(readable(c, room) as int) =~= c[0] + octets(rest).take(
                readable(rest, room2) as int,
            ));
            assert(octets(c) =~= octets(c).take(readable(c, room) as int) + octets(unread(c, room)));
        } else {
            let left = c.update(0, c[0].skip(room as int));
            lemma_octets_front(left);
            assert(left.skip(1) =~= rest);
            assert(octets(c) =~= octets(c).take(room as int) + octets(left));
        }
    } else {
        assert(octets(c) =~= octets(c).take(readable(c, room) as int) + octets(unread(c, room)));
    }
}

/// The octets of the first chunk come first.
proof fn lemma_octets_front(c: Seq<Seq<u8>>)
    requires
        c.len() > 0,
    ensures
        octets(c) == c[0] + octets(c.skip(1)),
    decreases c.len(),
{
    if c.len() == 1 {
        assert(c.drop_last() =~= Seq::empty());
        assert(c.skip(1) =~= Seq::empty());
        assert(octets(c.drop_last()) == Seq::<u8>::empty());
        assert(octets(c) =~= c[0] + octets(c.skip(1)));
    } else {
        lemma_octets_front(c.drop_last());
        assert(c.drop_last().skip(1) =~= c.skip(1).drop_last());
        assert(octets(c) =~= c[0] + octets(c.skip(1)));
    }
}

/// Cutting some octets in the midst of what starts at `start`.
proof fn lemma_cut(all: Seq<u8>, start: int, first: Seq<u8>, rest: Seq<u8>, k: int)
    requires
        0 <= start <= all.len(),
        0 <= k <= first.len(),
        all.skip(start) == first + rest,
    ensures
        start + first.len() + rest.len() == all.len(),
        all.skip(start + k) == first.skip(k) + rest,
        all.take(start + k) == all.take(start) + first.take(k),
{
    let tail = all.skip(start);
    assert(tail.len() == all.len() - start);
    assert(tail.skip(k) =~= all.skip(start + k));
    assert((first + rest).skip(k) =~= first.skip(k) + rest);
    assert(tail.take(k) =~= first.take(k));
    assert(all.take(start + k) =~= all.take(start) + tail.take(k));
}

/// Write the first `k` octets of a slice to another one, from some place on.
fn copy_to(buf: &mut [u8], at: usize, s: &[u8], k: usize)
    requires
        k <= s@.len(),
        at + k <= old(buf)@.len(),
    ensures
        final(buf)@ == old(buf)@.take(at as int) + s@.take(k as int) + old(buf)@.skip(at + k),
{
    let ghost before = buf@;
    let n: usize = buf.len();
    let mut i: usize = 0;
    assert(buf@ =~= before.take(at as int) + s@.take(0) + before.skip(at as int));
    while i < k
        invariant
            i <= k <= s@.len(),
            at + k <= n,
            n == before.len() == buf@.len(),
            buf@ == before.take(at as int) + s@.take(i as int) + before.skip(at + i),
        decreases k - i,
    {
        buf[at + i] = s[i];
        i += 1;
        assert(buf@ =~= before.take(at as int) + s@.take(i as int) + before.skip(at + i));
    }
}

/// `VecDeque::front_mut` is the first element, if there is one: what is written to it is that
/// element afterwards.
#[verifier::external_body]
fn front_of(d: &mut VecDeque<Bytes>) -> (r: Option<&mut Bytes>)
    ensures
        r is None <==> old(d)@.len() == 0,
        r is None ==> final(d)@ == old(d)@,
        r matches Some(x) ==> *x == old(d)@[0] && final(d)@ == old(d)@.update(0, *final(x)),
{
    d.front_mut()
}

impl Chunks {
    /// No data.
    pub fn new() -> (c: Self)
        ensures
            c@ == Seq::<Seq<u8>>::empty(),
    {
        let c = Chunks { seq: VecDeque::new() };
        assert(c@ =~= Seq::<Seq<u8>>::empty());
        c
    }

    /// The number of octets in all chunks, unless it is too large.
    pub fn len(&self) -> (n: Option<usize>)
        ensures
            n == if total(self@) <= usize::MAX {
                Some(total(self@) as usize)
            } else {
                None
            },
    {
        let mut n: Option<usize> = Some(0);
        let mut i: usize = 0;
        while i < self.seq.len()
            invariant
                i <= self@.len(),
                self@.len() == self.seq@.len(),
                n == if total(self@.take(i as int)) <= usize::MAX {
                    Some(total(self@.take(i as int)) as usize)
                } else {
                    None
                },
            decreases self@.len() - i,
        {
            assert(self@.take(i + 1).drop_last() =~= self@.take(i as int));
            let m: usize = self.seq[i].len();
            n = match n {
                Some(n) => n.checked_add(m),
                None => None,
            };
            i += 1;
        }
        assert(self@.take(i as int) =~= self@);
        n
    }

    /// Add a chunk at the end, unless it is empty.
    pub fn push(&mut self, x: Bytes)
        ensures
            final(self)@ == if bytes_of(x).len() == 0 {
                old(self)@
            } else {
                old(self)@.push(bytes_of(x))
            },
    {
        if !x.is_empty() {
            self.seq.push_back(x);
            assert(self@ =~= old(self)@.push(bytes_of(x)));
        }
    }

    /// Take the first chunk out.
    pub fn pop(&mut self) -> (x: Option<Bytes>)
        ensures
            x is None <==> old(self)@.len() == 0,
            x is None ==> final(self)@ == old(self)@,
            x matches Some(b) ==> bytes_of(b) == old(self)@[0] && final(self)@ == old(self)@.skip(1),
    {
        let x = self.seq.pop_front();
        if x.is_some() {
            assert(self@ =~= old(self)@.skip(1));
        }
        x
    }

    /// The first chunk, to be changed.
    pub fn front_mut(&mut self) -> (x: Option<&mut Bytes>)
        ensures
            x is None <==> old(self)@.len() == 0,
            x is None ==> final(self)@ == old(self)@,
            x matches Some(b) ==> bytes_of(*b) == old(self)@[0] && final(self)@ == old(self)@.update(
                0,
                bytes_of(*final(b)),
            ),
    {
        front_of(&mut self.seq)
    }

    /// Move as many octets as possible to the start of a slice, and tell how many.
    pub fn read(&mut self, buf: &mut [u8]) -> (n: usize)
        ensures
            n == readable(old(self)@, old(buf)@.len()),
            final(buf)@ == octets(old(self)@).take(n as int) + old(buf)@.skip(n as int),
            final(self)@ == unread(old(self)@, old(buf)@.len()),
            octets(final(self)@) == octets(old(self)@).skip(n as int),
    {
        let ghost c = self@;
        let ghost b = buf@;
        let m: usize = buf.len();
        let mut n: usize = 0;
        assert(octets(c).take(0) + b.skip(0) =~= b);
        assert(octets(c).skip(0) =~= octets(c));
        loop
            invariant_except_break
                n < m || n == 0,
                unread(self@, (m - n) as nat) == unread(c, m as nat),
            invariant
                m == b.len(),
                n <= m,
                n <= octets(c).len(),
                buf@ == octets(c).take(n as int) + b.skip(n as int),
                octets(self@) == octets(c).skip(n as int),
            ensures
                self@ == unread(c, m as nat),
                n == m || self@.len() == 0,
            decreases
                    self@.len(),
                    if self@.len() > 0 && self@[0].len() > 0 {
                        1int
                    } else {
                        0int
                    },
        {
            let ghost before = self@;
            let ghost start = n;
            proof {
                if before.len() > 0 {
                    lemma_octets_front(before);
                }
            }
            match self.front_mut() {
                None => break,
                Some(chunk) => {
                    if !chunk.is_empty() {
                        let k: usize = if chunk.len() < m - n {
                            chunk.len()
                        } else {
                            m - n
                        };
                        copy_to(buf, n, bytes_slice(chunk), k);
                        bytes_advance(chunk, k);
                        n += k;
                        proof {
                            let ghost after = before.update(0, before[0].skip(k as int));
                            lemma_octets_front(after);
                            assert(after.skip(1) =~= before.skip(1));
                            lemma_cut(
                                octets(c),
                                start as int,
                                before[0],
                                octets(before.skip(1)),
                                k as int,
                            );
                            assert(octets(after) =~= octets(c).skip(n as int));
                            assert(buf@ =~= octets(c).take(n as int) + b.skip(n as int));
                        }
                        if n == m {
                            break;
                        }
                        continue;
                    }
                },
            }
            assert(self@ =~= before);
            self.pop();
            assert(octets(before.skip(1)) =~= octets(before));
        }
        n
    }
}

} // verus!
