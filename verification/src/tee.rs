//! The stream tee: the per-stream state machine that forwards upstream byte
//! frames to the client verbatim and in order while feeding the identical
//! bytes to the selected parser.
//!
//! The surrounding task loop — awaiting the next upstream frame, pushing a
//! frame into the client-facing channel — performs the I/O and reports each
//! outcome as one method call here; the tee decides what happens and accounts
//! for every byte.  Once any terminal event is reported, no further frame may
//! be fed, and `finalize` still yields the usage observed up to that point.

use crate::parsers::BackendType;
use crate::parsers::StreamParser;
use crate::types::TokenUsage;
use vstd::prelude::*;

verus! {

/// State of one tee invocation: the selected parser and whether a terminal
/// event (end of stream, upstream error, client disconnect) has occurred.
pub struct StreamTee {
    parser: StreamParser,
    stopped: bool,
    forwarded: Ghost<Seq<u8>>,
}

impl StreamTee {
    /// The concatenation of every frame handed back for the client.
    pub closed spec fn client_bytes(self) -> Seq<u8> {
        self.forwarded@
    }

    /// The concatenation of every frame fed to the parser.
    pub closed spec fn parser_bytes(self) -> Seq<u8> {
        self.parser.bytes_fed()
    }

    /// Whether a terminal event has been observed; no frame is accepted then.
    pub closed spec fn is_stopped(self) -> bool {
        self.stopped
    }

    /// The backend the parser was selected for.
    pub closed spec fn backend(self) -> BackendType {
        self.parser.backend()
    }

    pub closed spec fn wf(self) -> bool {
        &&& self.parser.wf()
        &&& self.forwarded@ == self.parser.bytes_fed()
    }

    /// Start a tee for one response stream, selecting the parser for the
    /// classified backend before any chunk is read.
    pub fn new(backend: BackendType) -> (t: Self)
        ensures
            t.wf(),
            !t.is_stopped(),
            t.backend() == backend,
            t.client_bytes() == Seq::<u8>::empty(),
            t.parser_bytes() == Seq::<u8>::empty(),
    {
        StreamTee {
            parser: StreamParser::for_backend(backend),
            stopped: false,
            forwarded: Ghost(Seq::empty()),
        }
    }

    /// Account for one upstream frame: the parser is fed first and completely,
    /// then the very same bytes are handed back to be sent to the client.
    pub fn on_frame(&mut self, frame: Vec<u8>) -> (out: Vec<u8>)
        requires
            old(self).wf(),
            !old(self).is_stopped(),
        ensures
            final(self).wf(),
            !final(self).is_stopped(),
            final(self).backend() == old(self).backend(),
            out@ == frame@,
            final(self).parser_bytes() == old(self).parser_bytes() + frame@,
            final(self).client_bytes() == old(self).client_bytes() + out@,
    {
        self.parser.feed_chunk(frame.as_slice());
        proof {
            self.forwarded@ = self.forwarded@ + frame@;
        }
        frame
    }

    /// The client-facing channel's receiver is gone: stop requesting further
    /// upstream frames.  Not an error; nothing else changes.
    pub fn on_client_disconnect(&mut self)
        requires
            old(self).wf(),
        ensures
            final(self).wf(),
            final(self).is_stopped(),
            final(self).backend() == old(self).backend(),
            final(self).parser_bytes() == old(self).parser_bytes(),
            final(self).client_bytes() == old(self).client_bytes(),
    {
        self.stopped = true;
    }

    /// An upstream read failed: terminal for this stream.  The caller
    /// best-effort forwards one error indicator to the client.
    pub fn on_upstream_error(&mut self)
        requires
            old(self).wf(),
        ensures
            final(self).wf(),
            final(self).is_stopped(),
            final(self).backend() == old(self).backend(),
            final(self).parser_bytes() == old(self).parser_bytes(),
            final(self).client_bytes() == old(self).client_bytes(),
    {
        self.stopped = true;
    }

    /// The upstream body signalled end of stream: normal completion.
    pub fn on_upstream_end(&mut self)
        requires
            old(self).wf(),
        ensures
            final(self).wf(),
            final(self).is_stopped(),
            final(self).backend() == old(self).backend(),
            final(self).parser_bytes() == old(self).parser_bytes(),
            final(self).client_bytes() == old(self).client_bytes(),
    {
        self.stopped = true;
    }

    /// Whether a terminal event has been observed.
    pub fn has_stopped(&self) -> (r: bool)
        ensures
            r == self.is_stopped(),
    {
        self.stopped
    }

    /// Finalize the parser — on every exit path, stopped or not — and return
    /// the usage extracted from exactly the bytes that were observed.
    pub fn finalize(self) -> (u: TokenUsage)
        requires
            self.wf(),
        ensures
            u == StreamParser::spec_usage(self.backend(), self.parser_bytes()),
    {
        self.parser.finalize()
    }
}

/// Byte fidelity: at every point of a tee's life, the ordered concatenation
/// of bytes handed back for the client equals the ordered concatenation of
/// bytes fed to the parser.
pub proof fn lemma_byte_fidelity(t: StreamTee)
    requires
        t.wf(),
    ensures
        t.client_bytes() == t.parser_bytes(),
{
}

/// A client disconnect never changes what the stream's usage will be: the
/// usage is a function of the bytes observed so far, which the disconnect
/// leaves untouched, and `finalize` stays available in the stopped state.
pub proof fn lemma_disconnect_preserves_usage(before: StreamTee, after: StreamTee)
    requires
        before.wf(),
        after.wf(),
        after.backend() == before.backend(),
        after.parser_bytes() == before.parser_bytes(),
    ensures
        StreamParser::spec_usage(after.backend(), after.parser_bytes())
            == StreamParser::spec_usage(before.backend(), before.parser_bytes()),
{
}

} // verus!
