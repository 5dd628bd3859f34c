//! The byte-source capability: an ordered stream of bytes handed out through
//! bounded reads, each byte delivered at most once.
use vstd::prelude::*;

verus! {

/// A failed read from a byte source, with the message the source reported.
#[derive(Debug)]
pub struct SourceError {
    pub message: String,
}

/// An ordered stream of bytes delivered incrementally through bounded reads.
///
/// `delivered()` is the history of all bytes the source has handed out so
/// far, oldest first. Every successful read appends exactly the returned
/// chunk to that history, so a source never serves the same byte twice.
pub trait ByteSource {
    /// All bytes this source has handed out so far, oldest first.
    /// Implementations override this model; the default stands only so that
    /// unverified sources (test doubles, adapters) need not name it.
    open spec fn delivered(&self) -> Seq<u8> {
        Seq::empty()
    }

    /// Reads at most `max` bytes. An empty chunk where `max > 0` means the
    /// end of the stream has been reached.
    fn read(&mut self, max: usize) -> (r: Result<Vec<u8>, SourceError>)
        ensures
            match r {
                Ok(chunk) => chunk@.len() <= max && final(self).delivered() == old(
                    self,
                ).delivered() + chunk@,
                Err(_) => final(self).delivered() == old(self).delivered(),
            },
    ;
}

/// A byte source over an owned buffer, serving its contents front to back.
/// It never fails.
pub struct VecSource {
    data: Vec<u8>,
    pos: usize,
}

impl VecSource {
    #[verifier::type_invariant]
    spec fn wf(&self) -> bool {
        self.pos <= self.data.len()
    }

    /// The whole contents this source serves.
    pub closed spec fn contents(&self) -> Seq<u8> {
        self.data@
    }

    /// How many bytes have been served so far.
    pub closed spec fn position(&self) -> nat {
        self.pos as nat
    }

    pub fn new(data: Vec<u8>) -> (r: VecSource)
        ensures
            r.contents() == data@,
            r.position() == 0,
            r.delivered() == Seq::<u8>::empty(),
    {
        let r = VecSource { data, pos: 0 };
        proof {
            assert(r.delivered() =~= Seq::<u8>::empty());
        }
        r
    }
}

impl ByteSource for VecSource {
    /// The bytes before the current position.
    closed spec fn delivered(&self) -> Seq<u8> {
        self.data@.take(self.pos as int)
    }

    /// Serves exactly the next `min(max, contents remaining)` bytes.
    fn read(&mut self, max: usize) -> (r: Result<Vec<u8>, SourceError>)
        ensures
            final(self).contents() == old(self).contents(),
            r matches Ok(chunk) && final(self).position() == old(self).position() + chunk@.len()
                && chunk@ == old(self).contents().subrange(
                old(self).position() as int,
                final(self).position() as int,
            ) && chunk@.len() == vstd::math::min(
                max as int,
                old(self).contents().len() - old(self).position(),
            ),
    {
        proof {
            use_type_invariant(&*self);
        }
        let remaining = self.data.len() - self.pos;
        let k = if max < remaining {
            max
        } else {
            remaining
        };
        let mut chunk: Vec<u8> = Vec::new();
        let mut j: usize = 0;
        while j < k
            invariant
                j <= k,
                self.pos + k <= self.data.len(),
                chunk@ == self.data@.subrange(self.pos as int, self.pos + j),
            decreases k - j,
        {
            chunk.push(self.data[self.pos + j]);
            proof {
                assert(chunk@ =~= self.data@.subrange(self.pos as int, self.pos + j + 1));
            }
            j += 1;
        }
        let ghost pre = *self;
        self.pos = self.pos + k;
        proof {
            assert(self.data@.take(self.pos as int) =~= pre.data@.take(pre.pos as int) + chunk@);
        }
        Ok(chunk)
    }
}

} // verus!
