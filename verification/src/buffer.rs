use vstd::prelude::*;

verus! {

/// Bytes read ahead from a source, at most as many as it was made for.
#[derive(Debug)]
pub struct Buffer {
    buf: Vec<u8>,
    level: usize,
}

impl Buffer {
    /// The fill level never passes the end.
    #[verifier::type_invariant]
    spec fn wf(self) -> bool {
        self.level <= self.buf@.len()
    }

    /// The bytes that were read and not consumed, the earliest first.
    pub closed spec fn data(self) -> Seq<u8> {
        self.buf@.take(self.level as int)
    }

    /// The number of bytes that fit.
    pub closed spec fn capacity(self) -> nat {
        self.buf@.len()
    }

    /// Create an empty buffer for `size` bytes.
    pub fn new(size: usize) -> (r: Buffer)
        ensures
            r.data() == Seq::<u8>::empty(),
            r.capacity() == size,
    {
        Buffer { buf: vec![0; size], level: 0 }
    }

    /// The number of bytes that there is room for.
    pub fn room(&self) -> (r: usize)
        ensures
            r == self.capacity() - self.data().len(),
    {
        proof {
            use_type_invariant(self);
        }
        self.buf.len() - self.level
    }

    /// The bytes that were read and not consumed.
    pub fn bytes(&self) -> (r: &[u8])
        ensures
            r@ == self.data(),
            r@.len() <= self.capacity(),
    {
        proof {
            use_type_invariant(self);
        }
        self.buf.as_slice().split_at(self.level).0
    }

    /// Takes in what one read from the source has given. Returns whether another read is due: the
    /// source had something and there is room left.
    pub fn fill_buf(&mut self, read: &[u8]) -> (r: bool)
        requires
            old(self).data().len() + read@.len() <= old(self).capacity(),
        ensures
            final(self).capacity() == old(self).capacity(),
            final(self).data() == old(self).data() + read@,
            r == (read@.len() > 0 && final(self).data().len() < final(self).capacity()),
    {
        proof {
            use_type_invariant(&*self);
        }
        let size: usize = self.buf.len();
        let start: usize = self.level;
        self.level = 0;
        let mut buf: Vec<u8> = Vec::new();
        std::mem::swap(&mut buf, &mut self.buf);
        let mut i: usize = 0;
        while i < read.len()
            invariant
                i <= read@.len(),
                start == old(self).level,
                start + read@.len() <= size,
                buf@.len() == size,
                old(self).buf@.len() == size,
                buf@.take(start as int) == old(self).buf@.take(start as int),
                forall|k: int| 0 <= k < i ==> buf@[start + k] == #[trigger] read@[k],
            decreases read@.len() - i,
        {
            let ghost before = buf@;
            buf[start + i] = read[i];
            assert(buf@.take(start as int) =~= before.take(start as int));
            i += 1;
        }
        self.buf = buf;
        self.level = start + read.len();
        assert(self.data() =~= old(self).data() + read@);
        read.len() > 0 && self.level < size
    }

    /// Drops the first `amt` bytes, or all if there are fewer.
    pub fn consume(&mut self, amt: usize)
        ensures
            final(self).capacity() == old(self).capacity(),
            final(self).data() == if amt < old(self).data().len() {
                old(self).data().skip(amt as int)
            } else {
                Seq::empty()
            },
    {
        proof {
            use_type_invariant(&*self);
        }
        let level: usize = self.level;
        self.level = 0;
        if amt < level {
            let rest: usize = level - amt;
            let mut buf: Vec<u8> = Vec::new();
            std::mem::swap(&mut buf, &mut self.buf);
            let mut i: usize = 0;
            while i < rest
                invariant
                    i <= rest,
                    level == old(self).level,
                    level <= buf@.len(),
                    rest == level - amt,
                    amt < level,
                    buf@.len() == old(self).buf@.len(),
                    forall|k: int| 0 <= k < i ==> #[trigger] buf@[k] == old(self).buf@[amt + k],
                    forall|k: int| i <= k < buf@.len() ==> #[trigger] buf@[k] == old(self).buf@[k],
                decreases rest - i,
            {
                buf[i] = buf[amt + i];
                i += 1;
            }
            self.buf = buf;
            self.level = rest;
            assert(self.data() =~= old(self).data().skip(amt as int));
        }
    }
}

} // verus!
