//! The byte source: a finite sequence of bytes handed out one at a time,
//! front to back, with exhaustion observable.

use vstd::prelude::*;
use vstd::slice::slice_index_get;
use vstd::slice::slice_subrange;

verus! {

/// A supplier of bytes. The decoder requests at most four bytes per call
/// and treats premature exhaustion as a truncation failure.
pub trait ByteReader {
    /// The bytes not yet handed out, in the order they will come.
    spec fn remaining(&self) -> Seq<u8>;

    /// Yield the next byte, or signal exhaustion. Either the source is
    /// empty and stays so, or the first remaining byte comes out and the
    /// rest stay behind it.
    fn next(&mut self) -> (r: Option<u8>)
        ensures
            old(self).remaining().len() == 0 ==> r is None && final (self).remaining() == old(
                self,
            ).remaining(),
            old(self).remaining().len() > 0 ==> r == Some(old(self).remaining()[0]) && final (
            self).remaining() == old(self).remaining().drop_first(),
    ;
}

/// A byte source that walks a borrowed slice front to back.
pub struct ByteSlice<'a> {
    a: &'a [u8],
}

impl<'a> ByteSlice<'a> {
    /// Wrap a slice as a byte source over exactly its bytes.
    pub fn from(a: &'a [u8]) -> (s: Self)
        ensures
            s.remaining() == a@,
    {
        ByteSlice { a }
    }
}

impl<'a> ByteReader for ByteSlice<'a> {
    closed spec fn remaining(&self) -> Seq<u8> {
        self.a@
    }

    fn next(&mut self) -> (r: Option<u8>) {
        if self.a.len() == 0 {
            return None;
        }
        let b: u8 = *slice_index_get(self.a, 0);
        self.a = slice_subrange(self.a, 1, self.a.len());
        Some(b)
    }
}

} // verus!
