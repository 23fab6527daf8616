//! The trace stage: every request gets a correlation id (the caller's, if
//! one came in, else a fresh one) and always a fresh request id; both are
//! echoed on the response.
use vstd::prelude::*;
use vstd::string::StringExecFns;

verus! {

/// The identifiers attached to one request, immutable for its lifetime.
#[derive(Debug, Clone)]
pub struct TraceContext {
    pub correlation_id: String,
    pub request_id: String,
}

/// Relies on uuid::Uuid::new_v4 and its display form: a fresh random
/// identifier, rendered hyphenated as exactly 36 characters.
#[verifier::external_body]
fn fresh_id() -> (r: String)
    ensures
        r@.len() == 36,
{
    uuid::Uuid::new_v4().to_string()
}

/// Attach trace identifiers to an inbound request: a supplied correlation
/// id is kept exactly; a missing one is replaced by a fresh identifier;
/// the request id is always freshly generated.
pub fn make_trace_context(inbound_correlation: Option<&str>) -> (ctx: TraceContext)
    ensures
        match inbound_correlation {
            Some(c) => ctx.correlation_id@ == c@,
            None => ctx.correlation_id@.len() == 36,
        },
        ctx.request_id@.len() == 36,
{
    let correlation_id = match inbound_correlation {
        Some(c) => String::from_str(c),
        None => fresh_id(),
    };
    TraceContext { correlation_id, request_id: fresh_id() }
}

impl TraceContext {
    /// The header values echoed on the response: exactly the identifiers
    /// that were attached at inbound.
    pub fn response_headers(&self) -> (r: (String, String))
        ensures
            r.0@ == self.correlation_id@,
            r.1@ == self.request_id@,
    {
        (self.correlation_id.clone(), self.request_id.clone())
    }
}

/// Trace propagation: the response's request id differs from whatever the
/// caller supplied as a correlation id, for every supplied value that is
/// not itself 36 characters long. (A freshly drawn random identifier is
/// 36 characters; that it differs from a supplied 36-character value too
/// holds only with overwhelming probability, not provably.)
pub proof fn lemma_request_id_differs(ctx: TraceContext, supplied: Seq<char>)
    requires
        ctx.request_id@.len() == 36,
        supplied.len() != 36,
    ensures
        ctx.request_id@ != supplied,
{
}

} // verus!
