//! The request controls an evaluation request carries, and the checks the
//! modeled sites make of them before answering.

use vstd::prelude::*;

use crate::kernel::{Error, Result};
use crate::text::{chars_of, push_str, string_of};

verus! {

/// The controls of an evaluation request that the sites look at.
#[derive(Clone, Debug, PartialEq, Eq)]
pub struct RequestControls {
    /// Whether the request asks for plain evaluation.
    pub plain_eval: bool,
    /// The symbol text of the requested evaluation mode.
    pub mode: String,
    /// Whether the request carries a deadline.
    pub has_deadline: bool,
    /// Whether the request demands remote-only consistency.
    pub remote_only: bool,
    /// The answer limit, when one is set.
    pub answer_limit: Option<u64>,
    /// Whether the request asks for a streamed reply.
    pub stream: bool,
    /// Whether the request sets a stream buffer.
    pub has_stream_buffer: bool,
}

/// Which checks a site makes: every site checks the mode, consistency and
/// streaming; some also refuse deadlines, some zero answer limits.
pub struct ControlChecks {
    /// The site's label in its messages, such as `auto parts request`.
    pub label: &'static str,
    /// Whether a deadline is refused.
    pub refuse_deadline: bool,
    /// Whether a zero answer limit is refused.
    pub refuse_zero_limit: bool,
}

/// The first refused control of a request, as the site's message.
pub open spec fn control_problem(label: Seq<char>, refuse_deadline: bool, refuse_zero_limit: bool, c: RequestControls) -> Option<Seq<char>> {
    if !c.plain_eval {
        Some(label + ": unsupported eval mode "@ + c.mode@)
    } else if refuse_deadline && c.has_deadline {
        Some(label + ": deadline is unsupported"@)
    } else if c.remote_only {
        Some(label + ": remote-only consistency is unsupported"@)
    } else if refuse_zero_limit && c.answer_limit == Some(0u64) {
        Some(label + ": answer_limit must be greater than zero"@)
    } else if c.stream || c.has_stream_buffer {
        Some(label + ": streaming replies are unsupported"@)
    } else {
        None
    }
}

fn refusal(label: &str, tail: &str) -> (e: Error)
    ensures
        e matches Error::Eval(m) && m@ == label@ + tail@,
{
    let mut text = chars_of(label);
    push_str(&mut text, tail);
    Error::Eval(string_of(text.as_slice()))
}

/// Checks a request's controls, refusing the first unsupported one.
pub fn validate_controls(checks: &ControlChecks, c: &RequestControls) -> (r: Result<()>)
    ensures
        match control_problem(checks.label@, checks.refuse_deadline, checks.refuse_zero_limit, *c) {
            None => r is Ok,
            Some(m) => r matches Err(Error::Eval(e)) && e@ == m,
        },
{
    if !c.plain_eval {
        let mut text = chars_of(checks.label);
        push_str(&mut text, ": unsupported eval mode ");
        push_str(&mut text, c.mode.as_str());
        return Err(Error::Eval(string_of(text.as_slice())));
    }
    if checks.refuse_deadline && c.has_deadline {
        return Err(refusal(checks.label, ": deadline is unsupported"));
    }
    if c.remote_only {
        return Err(refusal(checks.label, ": remote-only consistency is unsupported"));
    }
    if checks.refuse_zero_limit {
        if let Some(0) = c.answer_limit {
            return Err(refusal(checks.label, ": answer_limit must be greater than zero"));
        }
    }
    if c.stream || c.has_stream_buffer {
        return Err(refusal(checks.label, ": streaming replies are unsupported"));
    }
    Ok(())
}

} // verus!
