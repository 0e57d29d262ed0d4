//! Incremental parser for Ollama's NDJSON streaming format.
//!
//! The parser is specified against the entire byte history it has been fed:
//! `ollama_result` says what usage a whole stream yields, and `finalize`
//! returns exactly that, however the stream was cut into chunks.

use crate::bytescan::{
    find_byte, find_byte_exec, is_blank, is_blank_exec, lemma_find_byte_prefix,
    lemma_find_byte_props, lemma_find_byte_witness,
};
use crate::decode::decode_ollama_line;
use crate::decode::ollama_decode;
use crate::types::TokenUsage;
use vstd::prelude::*;

verus! {

/// One decoded line updates the accumulator only when its `done` flag is set,
/// and then field by field: an absent count never clears a prior value.
pub open spec fn apply_done_update(
    u: TokenUsage,
    done: bool,
    pec: Option<u32>,
    ec: Option<u32>,
) -> TokenUsage {
    if done {
        TokenUsage {
            prompt_tokens: if pec is Some {
                pec
            } else {
                u.prompt_tokens
            },
            completion_tokens: if ec is Some {
                ec
            } else {
                u.completion_tokens
            },
        }
    } else {
        u
    }
}

/// How one complete line changes the accumulator: blank lines are skipped,
/// undecodable lines are discarded, decoded lines apply the done-update.
pub open spec fn ollama_apply_line(u: TokenUsage, line: Seq<u8>) -> TokenUsage {
    if is_blank(line) {
        u
    } else {
        match ollama_decode(line) {
            Some((done, pec, ec)) => apply_done_update(u, done, pec, ec),
            None => u,
        }
    }
}

/// The accumulator after every newline-terminated line of `s` is applied in
/// order, starting from `u`; bytes after the last newline are not touched.
pub open spec fn ollama_run(u: TokenUsage, s: Seq<u8>) -> TokenUsage
    decreases s.len(),
{
    match find_byte(s, 10) {
        Some(i) => if 0 <= i < s.len() {
            ollama_run(ollama_apply_line(u, s.subrange(0, i + 1)), s.skip(i + 1))
        } else {
            u
        },
        None => u,
    }
}

/// The bytes of `s` after its last newline: the part no `feed_chunk` call may
/// interpret yet.
pub open spec fn line_rest(s: Seq<u8>) -> Seq<u8>
    decreases s.len(),
{
    match find_byte(s, 10) {
        Some(i) => if 0 <= i < s.len() {
            line_rest(s.skip(i + 1))
        } else {
            s
        },
        None => s,
    }
}

/// The usage a whole Ollama stream yields: every terminated line applied in
/// order, then one more decode attempt on the unterminated tail, if any.
pub open spec fn ollama_result(s: Seq<u8>) -> TokenUsage {
    let u = ollama_run(TokenUsage::absent(), s);
    let rest = line_rest(s);
    if rest.len() > 0 {
        match ollama_decode(rest) {
            Some((done, pec, ec)) => apply_done_update(u, done, pec, ec),
            None => u,
        }
    } else {
        u
    }
}

/// Processing a fully line-terminated prefix and then the remainder is the
/// same as processing the concatenation.
pub proof fn lemma_ollama_run_concat(u: TokenUsage, a: Seq<u8>, t: Seq<u8>)
    requires
        line_rest(a).len() == 0,
    ensures
        ollama_run(u, a + t) == ollama_run(ollama_run(u, a), t),
        line_rest(a + t) == line_rest(t),
    decreases a.len(),
{
    if a.len() == 0 {
        assert(a + t =~= t);
    } else {
        lemma_find_byte_props(a, 10);
        match find_byte(a, 10) {
            None => {
                assert(false);
            },
            Some(i) => {
                lemma_find_byte_prefix(a, t, 10);
                assert((a + t).subrange(0, i + 1) =~= a.subrange(0, i + 1));
                assert((a + t).skip(i + 1) =~= a.skip(i + 1) + t);
                lemma_ollama_run_concat(
                    ollama_apply_line(u, a.subrange(0, i + 1)),
                    a.skip(i + 1),
                    t,
                );
            },
        }
    }
}

/// A single newline-terminated line is consumed whole.
pub proof fn lemma_ollama_run_single_line(u: TokenUsage, line: Seq<u8>)
    requires
        line.len() > 0,
        line[line.len() - 1] == 10,
        forall|j: int| 0 <= j < line.len() - 1 ==> line[j] != 10,
    ensures
        ollama_run(u, line) == ollama_apply_line(u, line),
        line_rest(line).len() == 0,
{
    lemma_find_byte_witness(line, 10, line.len() - 1);
    assert(line.subrange(0, line.len() as int) =~= line);
    assert(line.skip(line.len() as int) =~= Seq::<u8>::empty());
    assert(ollama_run(ollama_apply_line(u, line), Seq::<u8>::empty()) == ollama_apply_line(
        u,
        line,
    ));
    assert(line_rest(Seq::<u8>::empty()) =~= Seq::<u8>::empty());
}

/// A line whose decode carries `done = true` and an `eval_count` but no
/// `prompt_eval_count` sets the completion counter to exactly that count and
/// leaves the prompt counter untouched — in particular, a still-absent prompt
/// counter stays absent rather than being defaulted.
pub proof fn lemma_done_line_without_prompt_count(u: TokenUsage, line: Seq<u8>, ec: u32)
    requires
        !is_blank(line),
        ollama_decode(line) == Some((true, None::<u32>, Some(ec))),
    ensures
        ollama_apply_line(u, line) == (TokenUsage {
            prompt_tokens: u.prompt_tokens,
            completion_tokens: Some(ec),
        }),
{
}

/// For a stream of complete lines: if no earlier line set the prompt count
/// and the terminal line decodes with `done = true`, an `eval_count` and no
/// `prompt_eval_count`, the finalized usage carries exactly that completion
/// count and an absent — never defaulted — prompt count.
pub proof fn lemma_terminal_line_without_prompt_count(p: Seq<u8>, l: Seq<u8>, ec: u32)
    requires
        line_rest(p).len() == 0,
        ollama_run(TokenUsage::absent(), p).prompt_tokens is None,
        l.len() > 0,
        l[l.len() - 1] == 10,
        forall|j: int| 0 <= j < l.len() - 1 ==> l[j] != 10,
        !is_blank(l),
        ollama_decode(l) == Some((true, None::<u32>, Some(ec))),
    ensures
        ollama_result(p + l) == (TokenUsage {
            prompt_tokens: None,
            completion_tokens: Some(ec),
        }),
{
    lemma_ollama_run_concat(TokenUsage::absent(), p, l);
    lemma_ollama_run_single_line(ollama_run(TokenUsage::absent(), p), l);
}

/// An update never reverts a present counter to absent: a field of the
/// accumulator transitions from absent to present or from one present value
/// to another, never back.
pub proof fn lemma_ollama_update_never_clears(u: TokenUsage, line: Seq<u8>)
    ensures
        u.prompt_tokens is Some ==> ollama_apply_line(u, line).prompt_tokens is Some,
        u.completion_tokens is Some ==> ollama_apply_line(u, line).completion_tokens is Some,
{
}

/// Parser for Ollama's NDJSON streaming format: a growable buffer of not yet
/// terminated bytes, and the usage accumulated from complete lines.
pub struct OllamaParser {
    buffer: Vec<u8>,
    token_usage: TokenUsage,
    history: Ghost<Seq<u8>>,
    consumed: Ghost<Seq<u8>>,
}

impl OllamaParser {
    /// Every byte this parser has been fed, in order.
    pub closed spec fn bytes_fed(self) -> Seq<u8> {
        self.history@
    }

    /// The buffer holds exactly the unterminated tail of the history, and the
    /// accumulator reflects every terminated line.
    pub closed spec fn wf(self) -> bool {
        &&& self.history@ == self.consumed@ + self.buffer@
        &&& line_rest(self.consumed@).len() == 0
        &&& find_byte(self.buffer@, 10) is None
        &&& self.token_usage == ollama_run(TokenUsage::absent(), self.consumed@)
    }

    pub fn new() -> (p: Self)
        ensures
            p.wf(),
            p.bytes_fed() == Seq::<u8>::empty(),
    {
        let p = OllamaParser {
            buffer: Vec::new(),
            token_usage: TokenUsage::new(),
            history: Ghost(Seq::empty()),
            consumed: Ghost(Seq::empty()),
        };
        proof {
            assert(Seq::<u8>::empty() + Seq::<u8>::empty() =~= Seq::<u8>::empty());
            assert(line_rest(Seq::<u8>::empty()) =~= Seq::<u8>::empty());
            assert(ollama_run(TokenUsage::absent(), Seq::<u8>::empty()) == TokenUsage::absent());
        }
        p
    }

    /// Append a chunk to the buffer, then consume every complete line in it.
    pub fn feed_chunk(&mut self, chunk: &[u8])
        requires
            old(self).wf(),
        ensures
            final(self).wf(),
            final(self).bytes_fed() == old(self).bytes_fed() + chunk@,
    {
        self.buffer.extend_from_slice(chunk);
        proof {
            self.history@ = self.history@ + chunk@;
            assert(self.history@ =~= self.consumed@ + self.buffer@);
        }
        self.process_lines();
    }

    /// Consume every newline-terminated line in the buffer, in order.
    fn process_lines(&mut self)
        requires
            old(self).history@ == old(self).consumed@ + old(self).buffer@,
            line_rest(old(self).consumed@).len() == 0,
            old(self).token_usage == ollama_run(TokenUsage::absent(), old(self).consumed@),
        ensures
            final(self).wf(),
            final(self).history@ == old(self).history@,
    {
        let ghost h0 = self.history@;
        let mut nl = find_byte_exec(&self.buffer, 10);
        while nl.is_some()
            invariant
                self.history@ == h0,
                self.history@ == self.consumed@ + self.buffer@,
                line_rest(self.consumed@).len() == 0,
                self.token_usage == ollama_run(TokenUsage::absent(), self.consumed@),
                match nl {
                    Some(i) => find_byte(self.buffer@, 10) == Some(i as int),
                    None => find_byte(self.buffer@, 10) is None,
                },
            decreases self.buffer@.len(),
        {
            let i = nl.unwrap();
            let buffer_len = self.buffer.len();
            proof {
                lemma_find_byte_props(self.buffer@, 10);
                assert(i + 1 <= buffer_len);
            }
            let ghost whole = self.buffer@;
            let tail = self.buffer.split_off(i + 1);
            // self.buffer now holds exactly one newline-terminated line
            let ghost line = self.buffer@;
            let ghost u0 = self.token_usage;
            self.apply_decoded_line();
            proof {
                lemma_ollama_run_single_line(u0, line);
                lemma_ollama_run_concat(TokenUsage::absent(), self.consumed@, line);
                assert(line + tail@ =~= whole);
                assert((self.consumed@ + line) + tail@ =~= self.consumed@ + whole);
                self.consumed@ = self.consumed@ + line;
            }
            self.buffer = tail;
            nl = find_byte_exec(&self.buffer, 10);
        }
    }

    /// Decode the buffer as one line and fold it into the accumulator.
    fn apply_decoded_line(&mut self)
        ensures
            final(self).token_usage == ollama_apply_line(old(self).token_usage, old(self).buffer@),
            final(self).buffer@ == old(self).buffer@,
            final(self).history@ == old(self).history@,
            final(self).consumed@ == old(self).consumed@,
    {
        let blank = is_blank_exec(&self.buffer);
        if !blank {
            match decode_ollama_line(self.buffer.as_slice()) {
                Some(resp) => {
                    if resp.done {
                        if resp.prompt_eval_count.is_some() {
                            self.token_usage.prompt_tokens = resp.prompt_eval_count;
                        }
                        if resp.eval_count.is_some() {
                            self.token_usage.completion_tokens = resp.eval_count;
                        }
                    }
                },
                None => {},
            }
        }
    }

    /// Make one more decode attempt on whatever unterminated bytes remain,
    /// then hand out the accumulator.
    pub fn finalize(self) -> (u: TokenUsage)
        requires
            self.wf(),
        ensures
            u == ollama_result(self.bytes_fed()),
    {
        proof {
            lemma_ollama_run_concat(TokenUsage::absent(), self.consumed@, self.buffer@);
            assert(ollama_run(self.token_usage, self.buffer@) == self.token_usage);
            assert(line_rest(self.buffer@) == self.buffer@);
        }
        let OllamaParser { buffer, mut token_usage, history, consumed } = self;
        if buffer.len() > 0 {
            match decode_ollama_line(buffer.as_slice()) {
                Some(resp) => {
                    if resp.done {
                        if resp.prompt_eval_count.is_some() {
                            token_usage.prompt_tokens = resp.prompt_eval_count;
                        }
                        if resp.eval_count.is_some() {
                            token_usage.completion_tokens = resp.eval_count;
                        }
                    }
                },
                None => {},
            }
        }
        token_usage
    }
}

} // verus!
