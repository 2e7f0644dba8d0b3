//! Byte streams.
//!
//! A stream is modelled by how it changes: `after.wrote(&before, bytes)` says
//! that a writer is `before` once exactly `bytes` have gone through it, and
//! `after.took(&before, bytes)` says the same of a reader. Wrappers define the
//! relation layer by layer, so what a generic function says of the stream it
//! was given also says what became of every stream inside it.
//!
//! A stream in memory never fails on its own account; such a stream is called
//! reliable, and contracts are exact on reliable streams.

use vstd::prelude::*;
use vstd::slice::slice_subrange;

use crate::error::Error;
use crate::error::ErrorKind;

verus! {

/// A sequence of bytes, as contracts speak of it.
pub type Bytes = Seq<u8>;

/// The smaller of two lengths.
pub open spec fn min_len(a: int, b: int) -> int {
    if a <= b {
        a
    } else {
        b
    }
}

/// A count of bytes moved on by `more`. A count stops at `usize::MAX`.
pub open spec fn count_on(count: usize, more: nat) -> usize {
    if count + more <= usize::MAX {
        (count + more) as usize
    } else {
        usize::MAX
    }
}

/// A sink of bytes.
pub trait Write: Sized {
    /// Every `write` to this stream takes the whole buffer and succeeds.
    spec fn reliable(&self) -> bool;

    /// This stream is `before` after `bytes`, and nothing else, were written
    /// to it in full.
    spec fn wrote(&self, before: &Self, bytes: Seq<u8>) -> bool;

    /// Writing nothing leaves a stream as it is.
    proof fn lemma_wrote_nothing(&self)
        ensures
            self.wrote(self, Seq::<u8>::empty()),
    ;

    /// Two writes in a row amount to one write of both parts.
    proof fn lemma_wrote_more(&self, mid: &Self, before: &Self, first: Seq<u8>, then: Seq<u8>)
        requires
            mid.wrote(before, first),
            self.wrote(mid, then),
        ensures
            self.wrote(before, first + then),
    ;

    /// Writing keeps a stream as reliable as it was.
    proof fn lemma_wrote_reliable(&self, before: &Self, bytes: Seq<u8>)
        requires
            self.wrote(before, bytes),
        ensures
            self.reliable() == before.reliable(),
    ;

    /// Offers `buf` to the stream, which takes some prefix of it and says how
    /// long that prefix was.
    fn write(&mut self, buf: &[u8]) -> (r: Result<usize, Error>)
        ensures
            r matches Ok(n) ==> n <= buf@.len(),
            old(self).reliable() ==> {
                &&& r matches Ok(n) && n == buf@.len()
                &&& final(self).wrote(old(self), buf@)
            },
    ;

    /// Hands on whatever the stream still holds back.
    fn flush(&mut self) -> (r: Result<(), Error>)
        ensures
            old(self).reliable() ==> {
                &&& r is Ok
                &&& final(self).wrote(old(self), Seq::<u8>::empty())
            },
    ;

    /// Offers `buf` again and again until the stream has taken all of it.
    ///
    /// Each call of `write` is given what the calls before it left over. The
    /// first failure is handed on, and a stream that takes nothing fails
    /// with `WriteZero`.
    fn write_all(&mut self, buf: &[u8]) -> (r: Result<(), Error>)
        ensures
            old(self).reliable() ==> {
                &&& r is Ok
                &&& final(self).wrote(old(self), buf@)
            },
    {
        let mut pos: usize = 0;
        while pos < buf.len()
            invariant
                pos <= buf@.len(),
                old(self).reliable() ==> {
                    ||| pos == 0 && *self == *old(self)
                    ||| pos == buf@.len() && self.wrote(old(self), buf@)
                },
            decreases buf@.len() - pos,
        {
            let rest = slice_subrange(buf, pos, buf.len());
            match self.write(rest) {
                Ok(n) => {
                    if n == 0 {
                        return Err(
                            Error::new(
                                ErrorKind::WriteZero,
                                "failed to write whole buffer".to_owned(),
                            ),
                        );
                    }
                    assert(pos == 0 ==> rest@ =~= buf@);
                    pos = pos + n;
                },
                Err(e) => {
                    return Err(e);
                },
            }
        }
        proof {
            if buf@.len() == 0 {
                self.lemma_wrote_nothing();
                assert(buf@ =~= Seq::<u8>::empty());
            }
        }
        Ok(())
    }
}

/// A source of bytes.
pub trait Read: Sized {
    /// The bytes that are still to come.
    spec fn pending(&self) -> Seq<u8>;

    /// Every `read` from this stream succeeds and hands out as many of the
    /// pending bytes as the buffer holds.
    spec fn reliable(&self) -> bool;

    /// This stream is `before` after `bytes`, and nothing else, were read
    /// from it.
    spec fn took(&self, before: &Self, bytes: Seq<u8>) -> bool;

    /// Reading nothing leaves a stream as it is.
    proof fn lemma_took_nothing(&self)
        ensures
            self.took(self, Seq::<u8>::empty()),
    ;

    /// Two reads in a row amount to one read of both parts.
    proof fn lemma_took_more(&self, mid: &Self, before: &Self, first: Seq<u8>, then: Seq<u8>)
        requires
            mid.took(before, first),
            self.took(mid, then),
        ensures
            self.took(before, first + then),
    ;

    /// What was read came off the front of the pending bytes, and reading
    /// keeps a stream as reliable as it was.
    proof fn lemma_took_pending(&self, before: &Self, bytes: Seq<u8>)
        requires
            self.took(before, bytes),
        ensures
            before.pending() == bytes + self.pending(),
            self.reliable() == before.reliable(),
    ;

    /// Moves some of the pending bytes to the front of `buf` and says how
    /// many.
    fn read(&mut self, buf: &mut [u8]) -> (r: Result<usize, Error>)
        ensures
            final(buf)@.len() == old(buf)@.len(),
            r matches Ok(n) ==> {
                &&& n <= old(buf)@.len()
                &&& n <= old(self).pending().len()
                &&& final(buf)@.take(n as int) == old(self).pending().take(n as int)
                &&& final(self).took(old(self), old(self).pending().take(n as int))
            },
            old(self).reliable() ==> (r matches Ok(n) && n == min_len(
                old(buf)@.len() as int,
                old(self).pending().len() as int,
            )),
    ;

    /// Reads until `buf` is full.
    ///
    /// The first failure is handed on, and a stream that ends before `buf`
    /// is full fails with `UnexpectedEof`.
    fn read_exact(&mut self, buf: &mut [u8]) -> (r: Result<(), Error>)
        ensures
            final(buf)@.len() == old(buf)@.len(),
            r is Ok ==> {
                &&& old(buf)@.len() <= old(self).pending().len()
                &&& final(buf)@ == old(self).pending().take(old(buf)@.len() as int)
                &&& final(self).took(old(self), final(buf)@)
            },
            old(self).reliable() ==> (r is Ok <==> old(buf)@.len() <= old(self).pending().len()),
            r matches Err(e) ==> old(self).reliable() ==> {
                &&& e.kind == ErrorKind::UnexpectedEof
                &&& e.message@ == "failed to fill whole buffer"@
            },
    {
        let len = buf.len();
        let mut pos: usize = 0;
        proof {
            self.lemma_took_nothing();
            self.lemma_took_pending(old(self), Seq::<u8>::empty());
            assert(old(self).pending().take(0) =~= Seq::<u8>::empty());
        }
        while pos < len
            invariant
                pos <= len,
                len == buf@.len(),
                len == old(buf)@.len(),
                pos <= old(self).pending().len(),
                buf@.take(pos as int) == old(self).pending().take(pos as int),
                self.took(old(self), old(self).pending().take(pos as int)),
                self.pending() == old(self).pending().skip(pos as int),
                self.reliable() == old(self).reliable(),
            decreases len - pos,
        {
            let ghost here = *self;
            let ghost filled = buf@;
            let (_, rest) = buf.split_at_mut(pos);
            match self.read(rest) {
                Ok(n) => {
                    if n == 0 {
                        return Err(
                            Error::new(
                                ErrorKind::UnexpectedEof,
                                "failed to fill whole buffer".to_owned(),
                            ),
                        );
                    }
                    proof {
                        let got = here.pending().take(n as int);
                        self.lemma_took_more(
                            &here,
                            old(self),
                            old(self).pending().take(pos as int),
                            got,
                        );
                        self.lemma_took_pending(&here, got);
                        assert(old(self).pending().take(pos as int) + got =~= old(
                            self,
                        ).pending().take(pos + n));
                        assert(got.len() == n);
                        assert(self.pending() =~= (got + self.pending()).skip(n as int));
                        assert(self.pending() =~= old(self).pending().skip(pos + n));
                        assert(buf@.take(pos + n) =~= filled.take(pos as int) + got);
                    }
                    pos = pos + n;
                },
                Err(e) => {
                    return Err(e);
                },
            }
        }
        assert(buf@.take(len as int) =~= buf@);
        Ok(())
    }
}

/// What a stream holds after a read off its front.
pub proof fn lemma_took_front<R: Read>(after: &R, before: &R, used: nat)
    requires
        used <= before.pending().len(),
        after.took(before, before.pending().take(used as int)),
    ensures
        after.pending() == before.pending().skip(used as int),
        after.reliable() == before.reliable(),
{
    let front = before.pending().take(used as int);
    after.lemma_took_pending(before, front);
    assert(after.pending() =~= (front + after.pending()).skip(used as int));
}

/// Two reads off the front, one after the other, are one read of both parts.
pub proof fn lemma_took_in_turn<R: Read>(after: &R, mid: &R, before: &R, first: nat, then: nat)
    requires
        first <= before.pending().len(),
        mid.took(before, before.pending().take(first as int)),
        then <= mid.pending().len(),
        after.took(mid, mid.pending().take(then as int)),
    ensures
        first + then <= before.pending().len(),
        mid.pending() == before.pending().skip(first as int),
        after.took(before, before.pending().take((first + then) as int)),
        after.pending() == before.pending().skip((first + then) as int),
        after.reliable() == before.reliable(),
{
    let all = before.pending();
    lemma_took_front(mid, before, first);
    after.lemma_took_more(mid, before, all.take(first as int), mid.pending().take(then as int));
    assert(all.take(first as int) + all.skip(first as int).take(then as int) =~= all.take(
        (first + then) as int,
    ));
    lemma_took_front(after, before, first + then);
}

impl Write for Vec<u8> {
    open spec fn reliable(&self) -> bool {
        true
    }

    open spec fn wrote(&self, before: &Self, bytes: Seq<u8>) -> bool {
        self@ == before@ + bytes
    }

    proof fn lemma_wrote_nothing(&self) {
        assert(self@ + Seq::<u8>::empty() =~= self@);
    }

    proof fn lemma_wrote_more(&self, mid: &Self, before: &Self, first: Seq<u8>, then: Seq<u8>) {
        assert((before@ + first) + then =~= before@ + (first + then));
    }

    proof fn lemma_wrote_reliable(&self, before: &Self, bytes: Seq<u8>) {
    }

    fn write(&mut self, buf: &[u8]) -> (r: Result<usize, Error>) {
        let ghost before = self@;
        self.extend_from_slice(buf);
        assert(self@ =~= before + buf@);
        Ok(buf.len())
    }

    fn flush(&mut self) -> (r: Result<(), Error>) {
        assert(self@ + Seq::<u8>::empty() =~= self@);
        Ok(())
    }
}

impl<'a> Read for &'a [u8] {
    open spec fn pending(&self) -> Seq<u8> {
        (*self)@
    }

    open spec fn reliable(&self) -> bool {
        true
    }

    open spec fn took(&self, before: &Self, bytes: Seq<u8>) -> bool {
        (*before)@ == bytes + (*self)@
    }

    proof fn lemma_took_nothing(&self) {
        assert(Seq::<u8>::empty() + (*self)@ =~= (*self)@);
    }

    proof fn lemma_took_more(&self, mid: &Self, before: &Self, first: Seq<u8>, then: Seq<u8>) {
        assert(first + (then + (*self)@) =~= (first + then) + (*self)@);
    }

    proof fn lemma_took_pending(&self, before: &Self, bytes: Seq<u8>) {
    }

    fn read(&mut self, buf: &mut [u8]) -> (r: Result<usize, Error>) {
        let src: &'a [u8] = *self;
        let n: usize = if buf.len() <= src.len() {
            buf.len()
        } else {
            src.len()
        };
        let mut i: usize = 0;
        while i < n
            invariant
                i <= n,
                n <= src@.len(),
                n <= buf@.len(),
                buf@.len() == old(buf)@.len(),
                buf@.take(i as int) == src@.take(i as int),
            decreases n - i,
        {
            buf[i] = src[i];
            i += 1;
            assert(buf@.take(i as int) =~= src@.take(i as int));
        }
        *self = slice_subrange(src, n, src.len());
        assert(src@ =~= src@.take(n as int) + src@.subrange(n as int, src@.len() as int));
        Ok(n)
    }
}

} // verus!
