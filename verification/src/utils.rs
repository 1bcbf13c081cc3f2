use vstd::prelude::*;

verus! {

/// Appends all of `src` to `out`.
pub fn push_bytes(out: &mut Vec<u8>, src: &[u8])
    ensures
        final(out)@ == old(out)@ + src@,
{
    let mut i: usize = 0;
    while i < src.len()
        invariant
            0 <= i <= src@.len(),
            out@ == old(out)@ + src@.subrange(0, i as int),
        decreases src@.len() - i,
    {
        out.push(src[i]);
        i = i + 1;
        proof {
            assert(src@.subrange(0, i as int) =~= src@.subrange(0, i - 1) + seq![src@[i - 1]]);
        }
    }
    proof {
        assert(src@.subrange(0, src@.len() as int) =~= src@);
    }
}

/// A cursor that fills a byte buffer front to back by appending slices.
/// It owns the buffer; `into_vec` hands it back once filled.
pub struct Buffer {
    buf: Vec<u8>,
    n: usize,
}

impl Buffer {
    /// The whole underlying buffer, the filled part first.
    pub closed spec fn bytes(self) -> Seq<u8> {
        self.buf@
    }

    /// How many bytes have been appended so far.
    pub closed spec fn filled(self) -> int {
        self.n as int
    }

    /// Holds of every buffer built by `new` and grown by `append`.
    pub closed spec fn wf(self) -> bool {
        self.n <= self.buf.len()
    }

    /// Takes ownership of the buffer to fill; nothing is appended yet.
    pub fn new(buf: Vec<u8>) -> (r: Buffer)
        ensures
            r.wf(),
            r.bytes() == buf@,
            r.filled() == 0,
    {
        Buffer { buf, n: 0 }
    }

    /// Copies `src` onto the foremost free bytes of the buffer, which
    /// must have room for it; the bytes beyond stay as they were.
    pub fn append(&mut self, src: &[u8])
        requires
            old(self).wf(),
            old(self).filled() + src@.len() <= old(self).bytes().len(),
        ensures
            final(self).wf(),
            final(self).filled() == old(self).filled() + src@.len(),
            final(self).bytes() == old(self).bytes().subrange(0, old(self).filled()) + src@
                + old(self).bytes().subrange(
                old(self).filled() + src@.len(),
                old(self).bytes().len() as int,
            ),
    {
        let ghost pre = *old(self);
        let mut i: usize = 0;
        while i < src.len()
            invariant
                pre.wf(),
                0 <= i <= src@.len(),
                pre.filled() + src@.len() <= pre.bytes().len(),
                self.n == pre.filled(),
                self.buf@.len() == pre.bytes().len(),
                forall|j: int| 0 <= j < pre.filled() ==> self.buf@[j] == pre.bytes()[j],
                forall|j: int| 0 <= j < i ==> self.buf@[pre.filled() + j] == src@[j],
                forall|j: int|
                    pre.filled() + i <= j < self.buf@.len() ==> self.buf@[j] == pre.bytes()[j],
            decreases src@.len() - i,
        {
            let idx = self.n + i;
            self.buf[idx] = src[i];
            i = i + 1;
        }
        self.n = self.n + src.len();
        proof {
            assert(self.buf@ =~= pre.bytes().subrange(0, pre.filled()) + src@
                + pre.bytes().subrange(pre.filled() + src@.len(), pre.bytes().len() as int));
        }
    }

    /// The number of bytes appended so far; on a well-formed buffer it
    /// never exceeds the capacity.
    pub fn len(&self) -> (r: usize)
        ensures
            r == self.filled(),
            self.wf() ==> r as int <= self.bytes().len(),
    {
        self.n
    }

    /// The total size of the underlying buffer.
    pub fn capacity(&self) -> (r: usize)
        ensures
            r == self.bytes().len(),
    {
        self.buf.len()
    }

    /// Hands the underlying buffer back.
    pub fn into_vec(self) -> (r: Vec<u8>)
        ensures
            r@ == self.bytes(),
    {
        self.buf
    }
}

} // verus!
