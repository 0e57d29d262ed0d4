//! The per-backend streaming parsers, the content-type classifier that picks
//! one, and the closed sum of parser states the stream tee dispatches over.

pub mod ollama;
pub mod openai;
pub mod passthrough;

pub use ollama::OllamaParser;
pub use openai::OpenAIParser;
pub use passthrough::PassthroughParser;

use crate::parsers::ollama::ollama_result;
use crate::parsers::openai::openai_result;
use crate::types::TokenUsage;
use vstd::prelude::*;
use vstd::string::StrSliceExecFns;

verus! {

/// Detected backend type, derived once per response from its content-type.
#[derive(Clone, Copy, Debug, PartialEq, Eq)]
pub enum BackendType {
    Ollama,
    OpenAI,
    Unknown,
}

/// Whether `n` occurs in `h` as a contiguous run of characters.
pub open spec fn contains_seq(h: Seq<char>, n: Seq<char>) -> bool {
    exists|i: int| 0 <= i && i + n.len() <= h.len() && #[trigger] h.subrange(i, i + n.len()) == n
}

/// Which backend a content-type designates: a case-sensitive substring match,
/// with the NDJSON/JSON match taking precedence over the event-stream match.
/// A generic JSON content-type classifies as Ollama by design: the classifier
/// trusts the content-type alone and never sniffs the payload.
pub open spec fn spec_detect_backend(ct: Seq<char>) -> BackendType {
    if contains_seq(ct, "application/x-ndjson"@) || contains_seq(ct, "application/json"@) {
        BackendType::Ollama
    } else if contains_seq(ct, "text/event-stream"@) {
        BackendType::OpenAI
    } else {
        BackendType::Unknown
    }
}

/// Whether `n@` occurs at position `at` of `h@`.
fn match_at(h: &str, n: &str, at: usize, hlen: usize, nlen: usize) -> (r: bool)
    requires
        hlen == h@.len(),
        nlen == n@.len(),
        at + nlen <= hlen,
    ensures
        r == (h@.subrange(at as int, at + n@.len()) == n@),
{
    let mut j: usize = 0;
    while j < nlen
        invariant
            hlen == h@.len(),
            nlen == n@.len(),
            at + nlen <= hlen,
            0 <= j <= nlen,
            forall|k: int| 0 <= k < j ==> h@[at + k] == n@[k],
        decreases nlen - j,
    {
        if h.get_char(at + j) != n.get_char(j) {
            proof {
                assert(h@.subrange(at as int, at + n@.len())[j as int] == h@[at + j]);
            }
            return false;
        }
        j = j + 1;
    }
    proof {
        assert(h@.subrange(at as int, at + n@.len()) =~= n@);
    }
    true
}

/// Whether `n` occurs anywhere in `h`.
fn str_contains(h: &str, n: &str) -> (r: bool)
    ensures
        r == contains_seq(h@, n@),
{
    let hlen = h.unicode_len();
    let nlen = n.unicode_len();
    if nlen > hlen {
        return false;
    }
    if nlen == 0 {
        proof {
            assert(h@.subrange(0int, 0int + n@.len()) =~= n@);
            assert(contains_seq(h@, n@));
        }
        return true;
    }
    let mut i: usize = 0;
    while i <= hlen - nlen
        invariant
            hlen == h@.len(),
            nlen == n@.len(),
            0 < nlen <= hlen,
            0 <= i <= hlen - nlen + 1,
            forall|ii: int| 0 <= ii < i ==> #[trigger] h@.subrange(ii, ii + n@.len()) != n@,
        decreases hlen - nlen - i + 1,
    {
        if match_at(h, n, i, hlen, nlen) {
            proof {
                assert(contains_seq(h@, n@));
            }
            return true;
        }
        i = i + 1;
    }
    false
}

/// Classify a response's content-type string, first match wins.
pub fn detect_backend_type(content_type: &str) -> (b: BackendType)
    ensures
        b == spec_detect_backend(content_type@),
{
    if str_contains(content_type, "application/x-ndjson") || str_contains(
        content_type,
        "application/json",
    ) {
        BackendType::Ollama
    } else if str_contains(content_type, "text/event-stream") {
        BackendType::OpenAI
    } else {
        BackendType::Unknown
    }
}

/// The closed sum of parser states: one variant per backend, so parser
/// selection and dispatch stay enumerable.
pub enum StreamParser {
    Ollama(OllamaParser),
    OpenAI(OpenAIParser),
    Passthrough(PassthroughParser),
}

impl StreamParser {
    /// The backend this parser was selected for.
    pub open spec fn backend(self) -> BackendType {
        match self {
            StreamParser::Ollama(_) => BackendType::Ollama,
            StreamParser::OpenAI(_) => BackendType::OpenAI,
            StreamParser::Passthrough(_) => BackendType::Unknown,
        }
    }

    pub closed spec fn wf(self) -> bool {
        match self {
            StreamParser::Ollama(p) => p.wf(),
            StreamParser::OpenAI(p) => p.wf(),
            StreamParser::Passthrough(_) => true,
        }
    }

    /// Every byte this parser has been fed, in order.
    pub closed spec fn bytes_fed(self) -> Seq<u8> {
        match self {
            StreamParser::Ollama(p) => p.bytes_fed(),
            StreamParser::OpenAI(p) => p.bytes_fed(),
            StreamParser::Passthrough(p) => p.bytes_fed(),
        }
    }

    /// The usage a backend's parser extracts from a whole stream of bytes.
    pub open spec fn spec_usage(backend: BackendType, s: Seq<u8>) -> TokenUsage {
        match backend {
            BackendType::Ollama => ollama_result(s),
            BackendType::OpenAI => openai_result(s),
            BackendType::Unknown => TokenUsage::absent(),
        }
    }

    /// Select the parser for a classified backend, before any chunk is read.
    pub fn for_backend(backend: BackendType) -> (p: Self)
        ensures
            p.wf(),
            p.bytes_fed() == Seq::<u8>::empty(),
            p.backend() == backend,
    {
        match backend {
            BackendType::Ollama => StreamParser::Ollama(OllamaParser::new()),
            BackendType::OpenAI => StreamParser::OpenAI(OpenAIParser::new()),
            BackendType::Unknown => StreamParser::Passthrough(PassthroughParser::new()),
        }
    }

    /// Feed one chunk of response bytes to the selected parser.
    pub fn feed_chunk(&mut self, chunk: &[u8])
        requires
            old(self).wf(),
        ensures
            final(self).wf(),
            final(self).bytes_fed() == old(self).bytes_fed() + chunk@,
            final(self).backend() == old(self).backend(),
    {
        match self {
            StreamParser::Ollama(p) => p.feed_chunk(chunk),
            StreamParser::OpenAI(p) => p.feed_chunk(chunk),
            StreamParser::Passthrough(p) => p.feed_chunk(chunk),
        }
    }

    /// Finalize parsing, consuming the parser, and return the token usage it
    /// extracted from the bytes it was fed.
    pub fn finalize(self) -> (u: TokenUsage)
        requires
            self.wf(),
        ensures
            u == StreamParser::spec_usage(self.backend(), self.bytes_fed()),
    {
        match self {
            StreamParser::Ollama(p) => p.finalize(),
            StreamParser::OpenAI(p) => p.finalize(),
            StreamParser::Passthrough(p) => p.finalize(),
        }
    }
}

} // verus!
