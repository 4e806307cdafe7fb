//! The byte sink the encoder writes into, and an in-memory implementation.

use crate::error::Error;
use vstd::prelude::*;

verus! {

/// A destination for encoded bytes.
///
/// `bytes()` is the sequence of bytes the sink has accepted so far; every
/// successful write appends to it and reports how many bytes it took.  A sink
/// may fail at any time with an I/O error, except while `never_fails()`
/// holds, which an in-memory sink uses to promise success.
pub trait Writer: Sized {
    /// All bytes accepted so far.
    spec fn bytes(&self) -> Seq<u8>;

    /// Whether this sink promises that its writes succeed.
    spec fn never_fails(&self) -> bool;

    /// Write one byte; on success it was appended and counted.  By default
    /// it is one slice write.
    fn write_byte(&mut self, byte: u8) -> (r: Result<usize, Error>)
        ensures
            match r {
                Ok(n) => final(self).bytes() == old(self).bytes().push(byte) && n == 1,
                Err(e) => e is IoError,
            },
            old(self).never_fails() ==> r is Ok && final(self).never_fails(),
    {
        let one = [byte];
        proof {
            assert(one@ =~= seq![byte]);
            assert(old(self).bytes().push(byte) =~= old(self).bytes() + seq![byte]);
        }
        self.write_from_slice(one.as_slice())
    }

    /// Write a whole slice; on success all of it was appended and counted.
    fn write_from_slice(&mut self, data: &[u8]) -> (r: Result<usize, Error>)
        ensures
            match r {
                Ok(n) => final(self).bytes() == old(self).bytes() + data@ && n == data@.len(),
                Err(e) => e is IoError,
            },
            old(self).never_fails() ==> r is Ok && final(self).never_fails(),
    ;
}

/// An in-memory sink: a growable byte vector that accepts every write.
pub struct VecWriter {
    data: Vec<u8>,
}

impl VecWriter {
    pub fn new() -> (w: VecWriter)
        ensures
            w.bytes() == Seq::<u8>::empty(),
            w.never_fails(),
    {
        VecWriter { data: Vec::new() }
    }

    /// The bytes written so far, as a slice.
    pub fn as_slice(&self) -> (s: &[u8])
        ensures
            s@ == self.bytes(),
    {
        self.data.as_slice()
    }

    /// The bytes written so far, surrendering the writer.
    pub fn into_vec(self) -> (v: Vec<u8>)
        ensures
            v@ == self.bytes(),
    {
        self.data
    }
}

impl Writer for VecWriter {
    closed spec fn bytes(&self) -> Seq<u8> {
        self.data@
    }

    closed spec fn never_fails(&self) -> bool {
        true
    }

    fn write_byte(&mut self, byte: u8) -> (r: Result<usize, Error>) {
        self.data.push(byte);
        Ok(1)
    }

    fn write_from_slice(&mut self, data: &[u8]) -> (r: Result<usize, Error>) {
        let mut i: usize = 0;
        while i < data.len()
            invariant
                i <= data@.len(),
                self.data@ == old(self).data@ + data@.take(i as int),
            decreases data@.len() - i,
        {
            self.data.push(data[i]);
            i = i + 1;
            proof {
                assert(data@.take(i as int) =~= data@.take(i - 1) + seq![data@[i - 1]]);
                assert(self.data@ == old(self).data@ + data@.take(i as int));
            }
        }
        proof {
            assert(data@.take(data@.len() as int) =~= data@);
        }
        Ok(data.len())
    }
}

} // verus!
