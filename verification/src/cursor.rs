//! A forward-only read position over a contiguous byte buffer.

use vstd::prelude::*;

verus! {

/// Sequential, position-tracking view over a byte buffer.
///
/// A cursor is supplied by the caller for one decode operation and is shared
/// by all nested decode calls, each of which consumes bytes from the front.
/// Its abstract value (the view) is the sequence of bytes not yet consumed.
pub struct Cursor {
    data: Vec<u8>,
    pos: usize,
}

impl View for Cursor {
    type V = Seq<u8>;

    closed spec fn view(&self) -> Seq<u8> {
        self.data@.skip(self.pos as int)
    }
}

impl Cursor {
    #[verifier::type_invariant]
    spec fn inv(self) -> bool {
        self.pos <= self.data.len()
    }

    /// A cursor positioned at the start of `data`.
    pub fn new(data: Vec<u8>) -> (c: Cursor)
        ensures
            c@ == data@,
    {
        let c = Cursor { data, pos: 0 };
        proof {
            assert(c@ =~= c.data@);
        }
        c
    }

    /// How many bytes have not been consumed yet.
    pub fn remaining(&self) -> (n: usize)
        ensures
            n == self@.len(),
    {
        proof {
            use_type_invariant(&*self);
        }
        self.data.len() - self.pos
    }

    /// Consume and return the next byte.
    pub fn take_byte(&mut self) -> (b: u8)
        requires
            old(self)@.len() >= 1,
        ensures
            b == old(self)@[0],
            final(self)@ == old(self)@.skip(1),
    {
        proof {
            use_type_invariant(&*self);
        }
        let b = self.data[self.pos];
        self.pos = self.pos + 1;
        proof {
            assert(self.data@.skip(self.pos as int) =~= self.data@.skip(self.pos - 1).skip(1));
        }
        b
    }

    /// Consume and return the next `n` bytes.
    pub fn take_bytes(&mut self, n: usize) -> (v: Vec<u8>)
        requires
            old(self)@.len() >= n,
        ensures
            v@ == old(self)@.take(n as int),
            final(self)@ == old(self)@.skip(n as int),
    {
        proof {
            use_type_invariant(&*self);
        }
        let mut v: Vec<u8> = Vec::new();
        let mut i: usize = 0;
        while i < n
            invariant
                i <= n,
                self == old(self),
                self.inv(),
                old(self)@.len() >= n,
                v@ =~= old(self)@.take(i as int),
            decreases n - i,
        {
            v.push(self.data[self.pos + i]);
            proof {
                assert(old(self)@[i as int] == self.data@[self.pos + i]);
                assert(v@ =~= old(self)@.take(i + 1));
            }
            i = i + 1;
        }
        self.pos = self.pos + n;
        proof {
            assert(self.data@.skip(self.pos as int) =~= old(self)@.skip(n as int));
        }
        v
    }
}

} // verus!
