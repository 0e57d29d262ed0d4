//! Passthrough parser for streams of an unknown backend: it observes the
//! bytes without interpreting them, so the tee never needs a special case for
//! "no parser applies".

use crate::types::TokenUsage;
use vstd::prelude::*;

verus! {

/// Parser that extracts nothing: feeding is a no-op and finalizing always
/// yields both counters absent, however many chunks were fed.
pub struct PassthroughParser {
    history: Ghost<Seq<u8>>,
}

impl PassthroughParser {
    /// Every byte this parser has been fed, in order.
    pub closed spec fn bytes_fed(self) -> Seq<u8> {
        self.history@
    }

    pub fn new() -> (p: Self)
        ensures
            p.bytes_fed() == Seq::<u8>::empty(),
    {
        PassthroughParser { history: Ghost(Seq::empty()) }
    }

    pub fn feed_chunk(&mut self, chunk: &[u8])
        ensures
            final(self).bytes_fed() == old(self).bytes_fed() + chunk@,
    {
        proof {
            self.history@ = self.history@ + chunk@;
        }
    }

    pub fn finalize(self) -> (u: TokenUsage)
        ensures
            u == TokenUsage::absent(),
    {
        TokenUsage::new()
    }
}

} // verus!
