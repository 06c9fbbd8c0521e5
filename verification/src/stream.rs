use vstd::prelude::*;

use crate::status::ResponseStatus;

verus! {

/// Model of the byte-input capability the decoder reads from: the bytes the
/// underlying stream has delivered so far, and how many of them have already
/// been consumed. An exact-length read either returns all requested bytes or
/// fails like a blocking read that timed out short of its length.
pub struct InputStream {
    /// Bytes delivered by the underlying stream, in order.
    pub data: Vec<u8>,
    /// Count of bytes already consumed from the front of `data`.
    pub pos: usize,
}

impl InputStream {
    /// The consumed count never passes the end of the delivered bytes.
    pub open spec fn wf(&self) -> bool {
        self.pos <= self.data@.len()
    }

    /// The bytes not yet consumed.
    pub open spec fn unread(&self) -> Seq<u8> {
        self.data@.subrange(self.pos as int, self.data@.len() as int)
    }

    /// A fresh input positioned at the first byte.
    pub fn new(data: Vec<u8>) -> (s: InputStream)
        ensures
            s.wf(),
            s.data@ == data@,
            s.pos == 0,
    {
        InputStream { data, pos: 0 }
    }

    /// How many bytes are still unread.
    pub fn remaining(&self) -> (n: usize)
        requires
            self.wf(),
        ensures
            n == self.unread().len(),
    {
        self.data.len() - self.pos
    }

    /// Exact-length blocking read: consumes and returns the next `n` bytes,
    /// or fails with a connection error when the stream ends first. A failed
    /// read consumes nothing.
    pub fn read_exact(&mut self, n: usize) -> (r: Result<Vec<u8>, ResponseStatus>)
        requires
            old(self).wf(),
        ensures
            final(self).wf(),
            final(self).data@ == old(self).data@,
            n <= old(self).unread().len() ==> {
                &&& r matches Ok(b) && b@ == old(self).unread().subrange(0, n as int)
                &&& final(self).pos == old(self).pos + n
            },
            n > old(self).unread().len() ==> {
                &&& r == Err::<Vec<u8>, ResponseStatus>(ResponseStatus::ConnectionError)
                &&& final(self).pos == old(self).pos
            },
    {
        if n > self.data.len() - self.pos {
            return Err(ResponseStatus::ConnectionError);
        }
        let end: usize = self.pos + n;
        let mut out: Vec<u8> = Vec::new();
        let mut i: usize = 0;
        while i < n
            invariant
                i <= n,
                end == self.pos + n,
                self.pos + n <= self.data@.len(),
                self == old(self),
                out@ == self.data@.subrange(self.pos as int, self.pos + i as int),
            decreases n - i,
        {
            out.push(self.data[self.pos + i]);
            proof {
                assert(out@ =~= self.data@.subrange(self.pos as int, self.pos + (i + 1) as int));
            }
            i = i + 1;
        }
        self.pos = self.pos + n;
        proof {
            assert(out@ =~= old(self).unread().subrange(0, n as int));
        }
        Ok(out)
    }

    /// Append bytes the underlying stream has newly delivered, leaving the
    /// consumed count unchanged.
    pub fn feed(&mut self, bytes: &[u8])
        requires
            old(self).wf(),
        ensures
            final(self).wf(),
            final(self).data@ == old(self).data@ + bytes@,
            final(self).pos == old(self).pos,
    {
        self.data.extend_from_slice(bytes);
    }
}

} // verus!
