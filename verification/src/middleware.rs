//! Turning a request body's decoded fields into the `RequestData` record the
//! metrics emitter later reads.  Reading and re-assembling the HTTP body, and
//! decoding its JSON, happen outside; this module holds the rules for what
//! the extracted model and prompt are.

use crate::types::GenericRequest;
use crate::types::Message;
use crate::types::RequestData;
use vstd::prelude::*;
use vstd::string::StringExecFns;

verus! {

/// The line one chat message contributes to the prompt: `role: content`.
pub open spec fn spec_message_line(m: Message) -> Seq<char> {
    m.role@ + ": "@ + m.content@
}

/// All message lines joined with a newline, no trailing newline.
pub open spec fn spec_messages_text(ms: Seq<Message>) -> Seq<char>
    decreases ms.len(),
{
    if ms.len() == 0 {
        Seq::empty()
    } else if ms.len() == 1 {
        spec_message_line(ms[0])
    } else {
        spec_messages_text(ms.drop_last()) + "\n"@ + spec_message_line(ms.last())
    }
}

/// The prompt a request body yields: its `prompt` field if present, else its
/// joined messages, else a fixed placeholder.
pub open spec fn spec_extract_prompt(req: GenericRequest) -> Seq<char> {
    match req.prompt {
        Some(p) => p@,
        None => match req.messages {
            Some(ms) => spec_messages_text(ms@),
            None => "no prompt found"@,
        },
    }
}

/// Extract the prompt from either the `prompt` field or the `messages` field.
pub fn extract_prompt(request: &GenericRequest) -> (s: String)
    ensures
        s@ == spec_extract_prompt(*request),
{
    match &request.prompt {
        Some(p) => p.clone(),
        None => match &request.messages {
            Some(ms) => {
                let mut out = String::new();
                let mut i: usize = 0;
                while i < ms.len()
                    invariant
                        0 <= i <= ms@.len(),
                        out@ == spec_messages_text(ms@.take(i as int)),
                    decreases ms@.len() - i,
                {
                    if i > 0 {
                        out.append("\n");
                    }
                    let m = &ms[i];
                    out.append(m.role.as_str());
                    out.append(": ");
                    out.append(m.content.as_str());
                    proof {
                        let taken = ms@.take(i + 1 as int);
                        assert(taken.drop_last() =~= ms@.take(i as int));
                        assert(taken.last() == ms@[i as int]);
                    }
                    i = i + 1;
                }
                proof {
                    assert(ms@.take(ms@.len() as int) =~= ms@);
                }
                out
            },
            None => String::from_str("no prompt found"),
        },
    }
}

/// Build the request record the metrics emitter later reads: the extracted
/// model and prompt when the body decoded, fixed placeholders when it did
/// not, and the raw bytes either way.
pub fn build_request_data(parsed: Option<GenericRequest>, raw_body: Vec<u8>) -> (d: RequestData)
    ensures
        d.raw_body@ == raw_body@,
        match parsed {
            Some(req) => d.prompt@ == spec_extract_prompt(req) && d.model@ == (match req.model {
                Some(m) => m@,
                None => "unknown"@,
            }),
            None => d.model@ == "unknown"@ && d.prompt@ == "unparseable"@,
        },
{
    match parsed {
        Some(req) => {
            let prompt = extract_prompt(&req);
            let model = match req.model {
                Some(m) => m,
                None => String::from_str("unknown"),
            };
            RequestData { model, prompt, raw_body }
        },
        None => RequestData {
            model: String::from_str("unknown"),
            prompt: String::from_str("unparseable"),
            raw_body,
        },
    }
}

} // verus!
