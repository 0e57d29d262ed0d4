//! Incremental parser for the OpenAI-compatible SSE streaming format.
//!
//! Events are blocks separated by a blank line; `data: `-prefixed lines carry
//! a JSON payload whose optional `usage` object replaces both counters
//! outright.  As with the Ollama parser, the contract is phrased over the
//! entire byte history fed, so chunk boundaries cannot change the outcome.

use crate::bytescan::{
    find_byte, find_byte_from, find_delim2, find_delim2_exec, lemma_find_byte_props,
    lemma_find_delim2_prefix, lemma_find_delim2_props, lemma_find_delim2_witness, trim_ascii,
    trim_ascii_exec,
};
use crate::decode::decode_openai_data;
use crate::decode::openai_decode;
use crate::decode::usage_pair;
use crate::types::TokenUsage;
use vstd::prelude::*;

verus! {

/// The six bytes of the SSE data-line prefix `"data: "`.
pub open spec fn data_prefix() -> Seq<u8> {
    seq![100u8, 97u8, 116u8, 97u8, 58u8, 32u8]
}

/// The twelve bytes of the terminal sentinel line `"data: [DONE]"`.
pub open spec fn done_sentinel() -> Seq<u8> {
    seq![100u8, 97u8, 116u8, 97u8, 58u8, 32u8, 91u8, 68u8, 79u8, 78u8, 69u8, 93u8]
}

/// A decoded payload with a `usage` object replaces both counters outright;
/// anything else leaves the accumulator untouched.
pub open spec fn openai_apply_data(u: TokenUsage, data: Seq<u8>) -> TokenUsage {
    match openai_decode(data) {
        Some(Some((p, c))) => TokenUsage { prompt_tokens: Some(p), completion_tokens: Some(c) },
        _ => u,
    }
}

/// How one line of an event block changes the accumulator: blank lines,
/// comment lines and the `[DONE]` sentinel are skipped without any decode;
/// only a `data: ` payload is decoded.
pub open spec fn openai_apply_line(u: TokenUsage, line: Seq<u8>) -> TokenUsage {
    let t = trim_ascii(line);
    if t.len() == 0 {
        u
    } else if t[0] == 58 {
        u
    } else if t == done_sentinel() {
        u
    } else if t.len() >= 6 && t.subrange(0, 6) == data_prefix() {
        openai_apply_data(u, t.skip(6))
    } else {
        u
    }
}

/// Every line of one event block applied in order.
pub open spec fn openai_apply_block(u: TokenUsage, block: Seq<u8>) -> TokenUsage
    decreases block.len(),
{
    match find_byte(block, 10) {
        Some(i) => if 0 <= i < block.len() {
            openai_apply_block(openai_apply_line(u, block.subrange(0, i)), block.skip(i + 1))
        } else {
            openai_apply_line(u, block)
        },
        None => openai_apply_line(u, block),
    }
}

/// The accumulator after every complete, double-newline-terminated event
/// block of `s` is applied in order, starting from `u`.
pub open spec fn openai_run(u: TokenUsage, s: Seq<u8>) -> TokenUsage
    decreases s.len(),
{
    match find_delim2(s) {
        Some(i) => if 0 <= i && i + 2 <= s.len() {
            openai_run(openai_apply_block(u, s.subrange(0, i + 2)), s.skip(i + 2))
        } else {
            u
        },
        None => u,
    }
}

/// The bytes of `s` after its last complete event block.
pub open spec fn block_rest(s: Seq<u8>) -> Seq<u8>
    decreases s.len(),
{
    match find_delim2(s) {
        Some(i) => if 0 <= i && i + 2 <= s.len() {
            block_rest(s.skip(i + 2))
        } else {
            s
        },
        None => s,
    }
}

/// The usage a whole OpenAI-compatible stream yields: every complete event
/// block applied in order.  A trailing block that never received its closing
/// blank line is dropped — a known, accepted gap of the format.
pub open spec fn openai_result(s: Seq<u8>) -> TokenUsage {
    openai_run(TokenUsage::absent(), s)
}

/// Processing a fully block-terminated prefix and then the remainder is the
/// same as processing the concatenation.
pub proof fn lemma_openai_run_concat(u: TokenUsage, a: Seq<u8>, t: Seq<u8>)
    requires
        block_rest(a).len() == 0,
    ensures
        openai_run(u, a + t) == openai_run(openai_run(u, a), t),
        block_rest(a + t) == block_rest(t),
    decreases a.len(),
{
    if a.len() == 0 {
        assert(a + t =~= t);
    } else {
        lemma_find_delim2_props(a);
        match find_delim2(a) {
            None => {
                assert(false);
            },
            Some(i) => {
                lemma_find_delim2_prefix(a, t);
                assert((a + t).subrange(0, i + 2) =~= a.subrange(0, i + 2));
                assert((a + t).skip(i + 2) =~= a.skip(i + 2) + t);
                lemma_openai_run_concat(
                    openai_apply_block(u, a.subrange(0, i + 2)),
                    a.skip(i + 2),
                    t,
                );
            },
        }
    }
}

/// A single block ending in its double-newline delimiter is consumed whole.
pub proof fn lemma_openai_run_single_block(u: TokenUsage, block: Seq<u8>)
    requires
        block.len() >= 2,
        block[block.len() - 2] == 10,
        block[block.len() - 1] == 10,
        forall|j: int|
            0 <= j < block.len() - 2 ==> !(#[trigger] block[j] == 10 && block[j + 1] == 10),
    ensures
        openai_run(u, block) == openai_apply_block(u, block),
        block_rest(block).len() == 0,
{
    lemma_find_delim2_witness(block, block.len() - 2);
    assert(block.subrange(0, block.len() as int) =~= block);
    assert(block.skip(block.len() as int) =~= Seq::<u8>::empty());
    assert(openai_run(openai_apply_block(u, block), Seq::<u8>::empty()) == openai_apply_block(
        u,
        block,
    ));
    assert(block_rest(Seq::<u8>::empty()) =~= Seq::<u8>::empty());
}

/// A payload carrying a `usage` object replaces both counters outright,
/// whatever the accumulator held before — and feeding it twice leaves the
/// same result as feeding it once.
pub proof fn lemma_usage_replaces_outright(u: TokenUsage, data: Seq<u8>, p: u32, c: u32)
    requires
        openai_decode(data) == Some(Some((p, c))),
    ensures
        openai_apply_data(u, data) == (TokenUsage {
            prompt_tokens: Some(p),
            completion_tokens: Some(c),
        }),
        openai_apply_data(openai_apply_data(u, data), data) == openai_apply_data(u, data),
{
}

/// Blank lines, comment lines and the `[DONE]` sentinel never change the
/// accumulator; by the definition of `openai_apply_line`, none of them ever
/// reaches the decoder.
pub proof fn lemma_skipped_lines_change_nothing(u: TokenUsage, line: Seq<u8>)
    requires
        trim_ascii(line).len() == 0 || trim_ascii(line)[0] == 58 || trim_ascii(line)
            == done_sentinel(),
    ensures
        openai_apply_line(u, line) == u,
{
}

/// An update never reverts a present counter to absent: a replacement sets
/// both counters to present values, and everything else leaves the
/// accumulator as it was.
pub proof fn lemma_openai_update_never_clears(u: TokenUsage, line: Seq<u8>)
    ensures
        u.prompt_tokens is Some ==> openai_apply_line(u, line).prompt_tokens is Some,
        u.completion_tokens is Some ==> openai_apply_line(u, line).completion_tokens is Some,
{
}

/// Parser for OpenAI-compatible SSE streams: a growable buffer of bytes not
/// yet belonging to a complete event block, and the usage accumulated from
/// complete blocks.
pub struct OpenAIParser {
    buffer: Vec<u8>,
    token_usage: TokenUsage,
    history: Ghost<Seq<u8>>,
    consumed: Ghost<Seq<u8>>,
}

impl OpenAIParser {
    /// Every byte this parser has been fed, in order.
    pub closed spec fn bytes_fed(self) -> Seq<u8> {
        self.history@
    }

    /// The buffer holds exactly the bytes after the last complete event
    /// block, and the accumulator reflects every complete block.
    pub closed spec fn wf(self) -> bool {
        &&& self.history@ == self.consumed@ + self.buffer@
        &&& block_rest(self.consumed@).len() == 0
        &&& find_delim2(self.buffer@) is None
        &&& self.token_usage == openai_run(TokenUsage::absent(), self.consumed@)
    }

    pub fn new() -> (p: Self)
        ensures
            p.wf(),
            p.bytes_fed() == Seq::<u8>::empty(),
    {
        let p = OpenAIParser {
            buffer: Vec::new(),
            token_usage: TokenUsage::new(),
            history: Ghost(Seq::empty()),
            consumed: Ghost(Seq::empty()),
        };
        proof {
            assert(Seq::<u8>::empty() + Seq::<u8>::empty() =~= Seq::<u8>::empty());
            assert(block_rest(Seq::<u8>::empty()) =~= Seq::<u8>::empty());
            assert(openai_run(TokenUsage::absent(), Seq::<u8>::empty()) == TokenUsage::absent());
        }
        p
    }

    /// Append a chunk to the buffer, then consume every complete event block
    /// in it.
    pub fn feed_chunk(&mut self, chunk: &[u8])
        requires
            old(self).wf(),
        ensures
            final(self).wf(),
            final(self).bytes_fed() == old(self).bytes_fed() + chunk@,
    {
        self.buffer.extend_from_slice(chunk);
        proof {
            self.history@ = self.history@ + chunk@;
            assert(self.history@ =~= self.consumed@ + self.buffer@);
        }
        self.process_events();
    }

    /// Consume every complete, double-newline-delimited event block in the
    /// buffer, in order.
    fn process_events(&mut self)
        requires
            old(self).history@ == old(self).consumed@ + old(self).buffer@,
            block_rest(old(self).consumed@).len() == 0,
            old(self).token_usage == openai_run(TokenUsage::absent(), old(self).consumed@),
        ensures
            final(self).wf(),
            final(self).history@ == old(self).history@,
    {
        let ghost h0 = self.history@;
        let mut delim = find_delim2_exec(&self.buffer);
        while delim.is_some()
            invariant
                self.history@ == h0,
                self.history@ == self.consumed@ + self.buffer@,
                block_rest(self.consumed@).len() == 0,
                self.token_usage == openai_run(TokenUsage::absent(), self.consumed@),
                match delim {
                    Some(i) => find_delim2(self.buffer@) == Some(i as int),
                    None => find_delim2(self.buffer@) is None,
                },
            decreases self.buffer@.len(),
        {
            let i = delim.unwrap();
            let buffer_len = self.buffer.len();
            proof {
                lemma_find_delim2_props(self.buffer@);
                assert(i + 2 <= buffer_len);
            }
            let ghost whole = self.buffer@;
            let tail = self.buffer.split_off(i + 2);
            // self.buffer now holds exactly one delimiter-terminated block
            let ghost block = self.buffer@;
            let u0 = self.token_usage;
            self.token_usage = apply_block_exec(u0, &self.buffer);
            proof {
                lemma_openai_run_single_block(u0, block);
                lemma_openai_run_concat(TokenUsage::absent(), self.consumed@, block);
                assert(block + tail@ =~= whole);
                assert((self.consumed@ + block) + tail@ =~= self.consumed@ + whole);
                self.consumed@ = self.consumed@ + block;
            }
            self.buffer = tail;
            delim = find_delim2_exec(&self.buffer);
        }
    }

    /// Run the block scan once more — a no-op, since `feed_chunk` never
    /// leaves a complete block buffered — and hand out the accumulator.
    pub fn finalize(self) -> (u: TokenUsage)
        requires
            self.wf(),
        ensures
            u == openai_result(self.bytes_fed()),
    {
        let mut parser = self;
        parser.process_events();
        proof {
            lemma_openai_run_concat(TokenUsage::absent(), parser.consumed@, parser.buffer@);
            assert(openai_run(parser.token_usage, parser.buffer@) == parser.token_usage);
        }
        parser.token_usage
    }
}

/// The bytes the two line-shape constants stand for.
proof fn lemma_literal_bytes()
    ensures
        data_prefix().len() == 6,
        data_prefix()[0] == 100,
        data_prefix()[1] == 97,
        data_prefix()[2] == 116,
        data_prefix()[3] == 97,
        data_prefix()[4] == 58,
        data_prefix()[5] == 32,
        done_sentinel().len() == 12,
        done_sentinel()[0] == 100,
        done_sentinel()[1] == 97,
        done_sentinel()[2] == 116,
        done_sentinel()[3] == 97,
        done_sentinel()[4] == 58,
        done_sentinel()[5] == 32,
        done_sentinel()[6] == 91,
        done_sentinel()[7] == 68,
        done_sentinel()[8] == 79,
        done_sentinel()[9] == 78,
        done_sentinel()[10] == 69,
        done_sentinel()[11] == 93,
{
}

/// Apply one line of an event block to the accumulator.
fn apply_line_exec(u: TokenUsage, line: &Vec<u8>) -> (r: TokenUsage)
    ensures
        r == openai_apply_line(u, line@),
{
    proof {
        lemma_literal_bytes();
    }
    let t = trim_ascii_exec(line);
    if t.len() == 0 {
        return u;
    }
    if t[0] == 58 {
        return u;
    }
    let has_prefix = t.len() >= 6 && t[0] == 100 && t[1] == 97 && t[2] == 116 && t[3] == 97 && t[4]
        == 58 && t[5] == 32;
    if !has_prefix {
        proof {
            if t@.len() >= 6 && t@.subrange(0, 6) == data_prefix() {
                assert(t@.subrange(0, 6)[0] == t@[0]);
                assert(t@.subrange(0, 6)[1] == t@[1]);
                assert(t@.subrange(0, 6)[2] == t@[2]);
                assert(t@.subrange(0, 6)[3] == t@[3]);
                assert(t@.subrange(0, 6)[4] == t@[4]);
                assert(t@.subrange(0, 6)[5] == t@[5]);
            }
            if t@ == done_sentinel() {
                assert(t@[0] == done_sentinel()[0]);
                assert(t@[1] == done_sentinel()[1]);
                assert(t@[2] == done_sentinel()[2]);
                assert(t@[3] == done_sentinel()[3]);
                assert(t@[4] == done_sentinel()[4]);
                assert(t@[5] == done_sentinel()[5]);
            }
        }
        return u;
    }
    proof {
        assert(t@.subrange(0, 6) =~= data_prefix());
    }
    let is_sentinel = t.len() == 12 && t[6] == 91 && t[7] == 68 && t[8] == 79 && t[9] == 78 && t[10]
        == 69 && t[11] == 93;
    if is_sentinel {
        proof {
            assert(t@ =~= done_sentinel());
        }
        return u;
    }
    proof {
        if t@ == done_sentinel() {
            assert(t@.len() == 12);
            assert(t@[6] == 91 && t@[7] == 68 && t@[8] == 79 && t@[9] == 78 && t@[10] == 69
                && t@[11] == 93);
        }
    }
    let data = crate::bytescan::copy_range(&t, 6, t.len());
    proof {
        assert(data@ =~= t@.skip(6));
    }
    match decode_openai_data(data.as_slice()) {
        Some(resp) => {
            match resp.usage {
                Some(us) => TokenUsage {
                    prompt_tokens: Some(us.prompt_tokens),
                    completion_tokens: Some(us.completion_tokens),
                },
                None => u,
            }
        },
        None => u,
    }
}

/// Apply every line of one event block to the accumulator, in order.
fn apply_block_exec(u: TokenUsage, block: &Vec<u8>) -> (r: TokenUsage)
    ensures
        r == openai_apply_block(u, block@),
{
    let mut usage = u;
    let mut pos: usize = 0;
    let block_len = block.len();
    proof {
        assert(block@.skip(0) =~= block@);
    }
    loop
        invariant
            0 <= pos <= block@.len(),
            block_len == block@.len(),
            openai_apply_block(u, block@) == openai_apply_block(usage, block@.skip(pos as int)),
        decreases block@.len() - pos,
    {
        match find_byte_from(block, 10, pos) {
            Some(i) => {
                let line = crate::bytescan::copy_range(block, pos, i);
                let ghost seg = block@.skip(pos as int);
                proof {
                    lemma_find_byte_props(seg, 10);
                    assert(seg.subrange(0, i - pos as int) =~= block@.subrange(
                        pos as int,
                        i as int,
                    ));
                    assert(seg.skip(i - pos as int + 1) =~= block@.skip(i + 1 as int));
                }
                usage = apply_line_exec(usage, &line);
                pos = i + 1;
            },
            None => {
                let line = crate::bytescan::copy_range(block, pos, block.len());
                proof {
                    assert(block@.subrange(pos as int, block@.len() as int) =~= block@.skip(
                        pos as int,
                    ));
                }
                usage = apply_line_exec(usage, &line);
                return usage;
            },
        }
    }
}

} // verus!
