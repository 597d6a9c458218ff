//! The byte stream that the readers consume, and a peekable adapter over it.
//!
//! A `ByteReader` owns the bytes of a capture and a read position. Its
//! contracts speak of `rest()`, the bytes that are not yet consumed.
use vstd::prelude::*;

verus! {

/// Failure of the underlying byte stream.
#[derive(Debug, Clone, Copy, PartialEq, Eq, Structural)]
pub enum IoError {
    /// The stream ended before the bytes that were asked for.
    UnexpectedEof,
    /// A value handed to a writer cannot be written as it is.
    InvalidInput,
}

/// A byte stream held in memory, consumed from the front.
#[derive(Debug)]
pub struct ByteReader {
    data: Vec<u8>,
    pos: usize,
}

impl ByteReader {
    #[verifier::type_invariant]
    spec fn inv(&self) -> bool {
        self.pos <= self.data.len()
    }

    /// The bytes that have not been consumed yet.
    pub closed spec fn rest(&self) -> Seq<u8> {
        self.data@.subrange(self.pos as int, self.data@.len() as int)
    }

    /// A stream over `data`, positioned at its first byte.
    pub fn new(data: Vec<u8>) -> (r: Self)
        ensures
            r.rest() == data@,
    {
        let r = ByteReader { data, pos: 0 };
        assert(r.rest() =~= r.data@);
        r
    }

    /// The number of bytes that have not been consumed yet.
    pub fn remaining(&self) -> (r: usize)
        ensures
            r == self.rest().len(),
    {
        proof {
            use_type_invariant(self);
        }
        self.data.len() - self.pos
    }

    /// Consumes exactly `n` bytes and returns them. When fewer are left, all
    /// of them are consumed and `UnexpectedEof` is returned.
    pub fn read_exact(&mut self, n: usize) -> (r: Result<Vec<u8>, IoError>)
        ensures
            n <= old(self).rest().len() ==> (r matches Ok(v) && v@ == old(self).rest().take(
                n as int,
            ) && final(self).rest() == old(self).rest().skip(n as int)),
            n > old(self).rest().len() ==> (r == Err::<Vec<u8>, IoError>(IoError::UnexpectedEof)
                && final(self).rest().len() == 0),
    {
        proof {
            use_type_invariant(&*self);
        }
        if n > self.data.len() - self.pos {
            self.pos = self.data.len();
            assert(self.rest().len() == 0);
            return Err(IoError::UnexpectedEof);
        }
        let mut v: Vec<u8> = Vec::with_capacity(n);
        let start = self.pos;
        let mut i: usize = 0;
        while i < n
            invariant
                start == old(self).pos,
                self.data@ == old(self).data@,
                start + n <= self.data@.len() <= usize::MAX,
                i <= n,
                v@ == self.data@.subrange(start as int, start + i),
            decreases n - i,
        {
            v.push(self.data[start + i]);
            i = i + 1;
            assert(v@ =~= self.data@.subrange(start as int, start + i));
        }
        self.pos = start + n;
        assert(v@ =~= old(self).rest().take(n as int));
        assert(self.rest() =~= old(self).rest().skip(n as int));
        Ok(v)
    }

    /// Consumes exactly `n` bytes into the front of `buf`, leaving its other
    /// bytes as they were. When fewer are left, all of them are consumed and
    /// `UnexpectedEof` is returned.
    pub fn read_exact_into(&mut self, buf: &mut Vec<u8>, n: usize) -> (r: Result<(), IoError>)
        requires
            n <= old(buf)@.len(),
        ensures
            final(buf)@.len() == old(buf)@.len(),
            n <= old(self).rest().len() ==> (r is Ok && final(buf)@.take(n as int)
                == old(self).rest().take(n as int) && final(self).rest() == old(self).rest().skip(
                n as int,
            )),
            n > old(self).rest().len() ==> (r == Err::<(), IoError>(IoError::UnexpectedEof)
                && final(self).rest().len() == 0),
    {
        proof {
            use_type_invariant(&*self);
        }
        if n > self.data.len() - self.pos {
            self.pos = self.data.len();
            assert(self.rest().len() == 0);
            return Err(IoError::UnexpectedEof);
        }
        let start = self.pos;
        let mut i: usize = 0;
        while i < n
            invariant
                start == old(self).pos,
                self.data@ == old(self).data@,
                start + n <= self.data@.len() <= usize::MAX,
                n <= buf@.len(),
                i <= n,
                buf@.len() == old(buf)@.len(),
                forall|k: int| 0 <= k < i ==> buf@[k] == self.data@[start + k],
            decreases n - i,
        {
            buf.set(i, self.data[start + i]);
            i = i + 1;
        }
        self.pos = start + n;
        assert(buf@.take(n as int) =~= old(self).rest().take(n as int));
        assert(self.rest() =~= old(self).rest().skip(n as int));
        Ok(())
    }

    /// Consumes up to `buf.len()` bytes into the front of `buf` and returns
    /// how many were copied: all of `buf` where the stream holds that many,
    /// else what is left.
    pub fn read(&mut self, buf: &mut [u8]) -> (r: usize)
        ensures
            r == if old(buf)@.len() <= old(self).rest().len() {
                old(buf)@.len()
            } else {
                old(self).rest().len()
            },
            final(buf)@.len() == old(buf)@.len(),
            final(buf)@.take(r as int) == old(self).rest().take(r as int),
            final(buf)@.skip(r as int) == old(buf)@.skip(r as int),
            final(self).rest() == old(self).rest().skip(r as int),
    {
        proof {
            use_type_invariant(&*self);
        }
        let avail = self.data.len() - self.pos;
        let n = if buf.len() <= avail {
            buf.len()
        } else {
            avail
        };
        let start = self.pos;
        let mut i: usize = 0;
        while i < n
            invariant
                start == old(self).pos,
                self.data@ == old(self).data@,
                start + n <= self.data@.len() <= usize::MAX,
                n <= buf@.len(),
                i <= n,
                buf@.len() == old(buf)@.len(),
                forall|k: int| 0 <= k < i ==> buf@[k] == self.data@[start + k],
                forall|k: int| i <= k < buf@.len() ==> buf@[k] == old(buf)@[k],
            decreases n - i,
        {
            buf[i] = self.data[start + i];
            i = i + 1;
        }
        self.pos = start + n;
        assert(buf@.take(n as int) =~= old(self).rest().take(n as int));
        assert(buf@.skip(n as int) =~= old(buf)@.skip(n as int));
        assert(self.rest() =~= old(self).rest().skip(n as int));
        n
    }
}

/// Appends the bytes of `content` to `target`.
pub fn append_slice(target: &mut Vec<u8>, content: &[u8])
    ensures
        final(target)@ == old(target)@ + content@,
{
    let mut i: usize = 0;
    while i < content.len()
        invariant
            i <= content@.len(),
            target@ == old(target)@ + content@.take(i as int),
        decreases content@.len() - i,
    {
        target.push(content[i]);
        i = i + 1;
        assert(target@ =~= old(target)@ + content@.take(i as int));
    }
    assert(content@.take(content@.len() as int) =~= content@);
}

/// Takes the first `n` bytes of `v`.
pub fn truncated(v: Vec<u8>, n: usize) -> (r: Vec<u8>)
    requires
        n <= v@.len(),
    ensures
        r@ == v@.take(n as int),
{
    let mut v = v;
    v.truncate(n);
    v
}

/// A stream that has read its first bytes ahead, so that they can be looked
/// at before anything is consumed. Reads hand the peeked bytes out first,
/// then go on with the stream.
#[derive(Debug)]
pub struct PeakableReader {
    inner: ByteReader,
    peeked: Option<Vec<u8>>,
}

impl PeakableReader {
    /// The bytes that reads will hand out, in order: what is left of the
    /// peeked bytes, then the rest of the stream.
    pub closed spec fn rest(&self) -> Seq<u8> {
        match self.peeked {
            Some(p) => p@ + self.inner.rest(),
            None => self.inner.rest(),
        }
    }

    /// What `peak` returns.
    pub closed spec fn peeked_bytes(&self) -> Option<Seq<u8>> {
        match self.peeked {
            Some(p) => Some(p@),
            None => None,
        }
    }

    /// Reads the first `peek_size` bytes ahead (fewer where the stream is
    /// shorter) without consuming them.
    pub fn new(inner: ByteReader, peek_size: usize) -> (r: Result<Self, IoError>)
        ensures
            r matches Ok(p) && p.rest() == inner.rest() && p.peeked_bytes() == Some(
                inner.rest().take(
                    if peek_size <= inner.rest().len() {
                        peek_size as int
                    } else {
                        inner.rest().len() as int
                    },
                ),
            ),
    {
        let ghost inner_rest = inner.rest();
        let mut inner = inner;
        let mut peeked: Vec<u8> = vec![0u8; peek_size];
        let n = inner.read(peeked.as_mut_slice());
        peeked.truncate(n);
        let r = PeakableReader { inner, peeked: Some(peeked) };
        assert(r.rest() =~= inner_rest);
        Ok(r)
    }

    /// The peeked bytes that have not been read yet, or `None` once they
    /// all have been.
    pub fn peak(&self) -> (r: Option<&[u8]>)
        ensures
            match self.peeked_bytes() {
                Some(p) => r matches Some(s) && s@ == p,
                None => r is None,
            },
    {
        match &self.peeked {
            Some(p) => Some(p.as_slice()),
            None => None,
        }
    }

    /// Copies up to `buf.len()` bytes into the front of `buf` and returns how
    /// many. While peeked bytes are left, only they are handed out; what is
    /// left of them stays peeked, and once all are read, reads go on with the
    /// stream. Nothing is lost or repeated: the bytes handed out are the
    /// front of `rest()`, and zero bytes come only from an empty `buf` or an
    /// exhausted stream.
    pub fn read(&mut self, buf: &mut [u8]) -> (r: usize)
        ensures
            r <= old(buf)@.len(),
            r <= old(self).rest().len(),
            old(buf)@.len() > 0 && old(self).rest().len() > 0 ==> r > 0,
            final(buf)@.len() == old(buf)@.len(),
            final(buf)@.take(r as int) == old(self).rest().take(r as int),
            final(buf)@.skip(r as int) == old(buf)@.skip(r as int),
            final(self).rest() == old(self).rest().skip(r as int),
            match old(self).peeked_bytes() {
                Some(p) if p.len() > 0 => r == (if old(buf)@.len() <= p.len() {
                    old(buf)@.len()
                } else {
                    p.len()
                }) && final(self).peeked_bytes() == (if r < p.len() {
                    Some(p.skip(r as int))
                } else {
                    None
                }),
                _ => r == (if old(buf)@.len() <= old(self).rest().len() {
                    old(buf)@.len()
                } else {
                    old(self).rest().len()
                }) && final(self).peeked_bytes() is None,
            },
    {
        let taken = self.peeked.take();
        match taken {
            Some(peeked) if peeked.len() > 0 => {
                let to_read = if buf.len() <= peeked.len() {
                    buf.len()
                } else {
                    peeked.len()
                };
                let mut i: usize = 0;
                while i < to_read
                    invariant
                        to_read <= buf@.len(),
                        to_read <= peeked@.len(),
                        i <= to_read,
                        buf@.len() == old(buf)@.len(),
                        forall|k: int| 0 <= k < i ==> buf@[k] == peeked@[k],
                        forall|k: int| i <= k < buf@.len() ==> buf@[k] == old(buf)@[k],
                    decreases to_read - i,
                {
                    buf[i] = peeked[i];
                    i = i + 1;
                }
                if to_read < peeked.len() {
                    let mut left: Vec<u8> = Vec::new();
                    let mut j: usize = to_read;
                    while j < peeked.len()
                        invariant
                            to_read <= j <= peeked@.len(),
                            left@ == peeked@.subrange(to_read as int, j as int),
                        decreases peeked@.len() - j,
                    {
                        left.push(peeked[j]);
                        j = j + 1;
                        assert(left@ =~= peeked@.subrange(to_read as int, j as int));
                    }
                    assert(left@ =~= peeked@.skip(to_read as int));
                    self.peeked = Some(left);
                }
                assert(buf@.take(to_read as int) =~= old(self).rest().take(to_read as int));
                assert(buf@.skip(to_read as int) =~= old(buf)@.skip(to_read as int));
                assert(self.rest() =~= old(self).rest().skip(to_read as int));
                to_read
            },
            _ => {
                assert(self.rest() =~= old(self).rest());
                self.inner.read(buf)
            },
        }
    }

    /// The peeked bytes are the front of what reads will hand out.
    pub proof fn lemma_peeked_prefix(&self)
        ensures
            self.peeked_bytes() matches Some(p) ==> self.rest().take(p.len() as int) == p,
    {
        match self.peeked {
            Some(p) => {
                assert((p@ + self.inner.rest()).take(p@.len() as int) =~= p@);
            },
            None => {},
        }
    }

    /// Gives the stream back, with the peeked bytes that were not read put
    /// in front of it again.
    pub fn into_inner(self) -> (r: ByteReader)
        ensures
            r.rest() == self.rest(),
    {
        let PeakableReader { inner, peeked } = self;
        match peeked {
            None => inner,
            Some(p) => {
                let mut inner = inner;
                let mut all = p;
                let mut tail = inner.read_all();
                all.append(&mut tail);
                ByteReader::new(all)
            },
        }
    }
}

impl ByteReader {
    /// Consumes and returns every byte that is left.
    pub fn read_all(&mut self) -> (r: Vec<u8>)
        ensures
            r@ == old(self).rest(),
            final(self).rest().len() == 0,
    {
        let n = self.remaining();
        match self.read_exact(n) {
            Ok(v) => {
                assert(old(self).rest().take(n as int) =~= old(self).rest());
                v
            },
            Err(_) => Vec::new(),
        }
    }
}

} // verus!
