//! The queue endpoints' computational core: descriptors derived from
//! backend counters, the message listing with previews, the limit clamp,
//! and the decision each one-shot operation makes on its backend outcome.
use vstd::prelude::*;
use vstd::string::{StrSliceExecFns, StringExecFns};
use crate::aggregate::PeekedMessage;
use crate::classify::{classify, determine_queue_type, type_label};
use crate::constants::{DEFAULT_MESSAGE_LIMIT, MAX_SQS_MESSAGES_PER_REQUEST};
use crate::error::ApiError;
use crate::json::json_parse_of;
use crate::preview::{create_message_preview, preview_spec};
use crate::strutil::{last_segment, str_eq, suffix_after_last_slash};

verus! {

/// One queue as the listing reports it; derived afresh per request from
/// the backend's approximate counters.
#[derive(Debug)]
pub struct QueueInfo {
    pub name: String,
    pub url: String,
    pub queue_type: String,
    pub message_count: i32,
    pub messages_in_flight: i32,
    pub oldest_message_age: Option<i32>,
    pub last_activity: Option<String>,
}

/// The whole queue listing.
#[derive(Debug)]
pub struct QueuesResponse {
    pub queues: Vec<QueueInfo>,
}

/// The query parameters of the message listing.
#[derive(Debug)]
pub struct MessagesQuery {
    pub limit: Option<i32>,
}

/// One listed message with its derived preview.
#[derive(Debug)]
pub struct MessageInfo {
    pub message_id: String,
    pub receipt_handle: String,
    pub body: String,
    pub attributes: Vec<(String, String)>,
    pub preview: String,
}

/// The message listing of one queue.
#[derive(Debug)]
pub struct MessagesResponse {
    pub queue_name: String,
    pub messages: Vec<MessageInfo>,
    pub total_count: i32,
    pub queue_info: Option<QueueInfo>,
}

/// The body of a delete-message request.
#[derive(Debug)]
pub struct DeleteMessageRequest {
    pub receipt_handle: String,
}

/// The body of a redrive request.
#[derive(Debug)]
pub struct RedriveMessageRequest {
    pub receipt_handle: String,
    pub body: String,
    pub target_queue_name: String,
}

/// The requested limit, defaulted and clamped to the backend's per-call cap.
pub open spec fn limit_spec(limit: Option<i32>) -> i32 {
    let l = match limit {
        Some(v) => v,
        None => DEFAULT_MESSAGE_LIMIT,
    };
    if l <= MAX_SQS_MESSAGES_PER_REQUEST {
        l
    } else {
        MAX_SQS_MESSAGES_PER_REQUEST
    }
}

/// Clamp a caller-supplied limit to the backend's per-call cap, defaulting
/// a missing one.
pub fn effective_limit(limit: Option<i32>) -> (r: i32)
    ensures
        r == limit_spec(limit),
{
    let l = match limit {
        Some(v) => v,
        None => DEFAULT_MESSAGE_LIMIT,
    };
    if l <= MAX_SQS_MESSAGES_PER_REQUEST {
        l
    } else {
        MAX_SQS_MESSAGES_PER_REQUEST
    }
}

/// A decimal digit.
pub open spec fn is_digit(c: char) -> bool {
    48 <= c as u32 && c as u32 <= 57
}

pub open spec fn all_digits(s: Seq<char>) -> bool {
    forall|i: int| 0 <= i < s.len() ==> is_digit(s[i])
}

/// The number a digit string denotes.
pub open spec fn digits_val(s: Seq<char>) -> int
    decreases s.len(),
{
    if s.len() == 0 {
        0
    } else {
        digits_val(s.drop_last()) * 10 + (s.last() as u32 - 48)
    }
}

proof fn lemma_digits_val_nonneg(s: Seq<char>)
    requires
        all_digits(s),
    ensures
        digits_val(s) >= 0,
    decreases s.len(),
{
    if s.len() > 0 {
        assert(all_digits(s.drop_last()));
        lemma_digits_val_nonneg(s.drop_last());
    }
}

proof fn lemma_digits_prefix_le(s: Seq<char>, i: int)
    requires
        all_digits(s),
        0 <= i <= s.len(),
    ensures
        digits_val(s.subrange(0, i)) <= digits_val(s),
    decreases s.len() - i,
{
    if i == s.len() {
        assert(s.subrange(0, i) =~= s);
    } else {
        let p = s.subrange(0, i);
        let t = s.subrange(0, i + 1);
        assert(t.drop_last() =~= p);
        assert(all_digits(p));
        lemma_digits_val_nonneg(p);
        assert(digits_val(t) == digits_val(p) * 10 + (s[i] as u32 - 48));
        lemma_digits_prefix_le(s, i + 1);
    }
}

/// Read a non-negative decimal count, exactly when the whole string is
/// one or more digits and the value fits.
#[verifier::loop_isolation(false)]
pub fn parse_count(s: &str) -> (r: Option<i32>)
    ensures
        match r {
            Some(v) => s@.len() > 0 && all_digits(s@) && digits_val(s@) <= i32::MAX && v
                == digits_val(s@),
            None => !(s@.len() > 0 && all_digits(s@) && digits_val(s@) <= i32::MAX),
        },
{
    let n = s.unicode_len();
    if n == 0 {
        return None;
    }
    let mut acc: u64 = 0;
    let mut i: usize = 0;
    while i < n
        invariant
            i <= n,
            all_digits(s@.subrange(0, i as int)),
            acc == digits_val(s@.subrange(0, i as int)),
            acc <= i32::MAX,
        decreases n - i,
    {
        let c = s.get_char(i);
        let v = c as u32;
        if v < 48 || v > 57 {
            proof {
                assert(!is_digit(s@[i as int]));
            }
            return None;
        }
        let d = (v - 48) as u64;
        let next = acc * 10 + d;
        proof {
            assert(s@.subrange(0, i as int + 1).drop_last() =~= s@.subrange(0, i as int));
            assert(digits_val(s@.subrange(0, i as int + 1)) == acc * 10 + d);
        }
        if next > 0x7fff_ffff {
            proof {
                if all_digits(s@) {
                    lemma_digits_prefix_le(s@, i as int + 1);
                }
            }
            return None;
        }
        proof {
            assert(all_digits(s@.subrange(0, i as int + 1)));
        }
        acc = next;
        i = i + 1;
    }
    proof {
        assert(s@.subrange(0, n as int) =~= s@);
    }
    Some(acc as i32)
}

/// The value of the first attribute named `key`, in attribute order.
pub open spec fn attr_lookup(attrs: Seq<(String, String)>, key: Seq<char>) -> Option<Seq<char>>
    decreases attrs.len(),
{
    if attrs.len() == 0 {
        None
    } else if attrs[0].0@ == key {
        Some(attrs[0].1@)
    } else {
        attr_lookup(attrs.drop_first(), key)
    }
}

/// The counter an attribute map reports under `key`: its decimal value,
/// or zero where the attribute is missing or unreadable.
pub open spec fn count_of(attrs: Seq<(String, String)>, key: Seq<char>) -> int {
    match attr_lookup(attrs, key) {
        Some(v) => if v.len() > 0 && all_digits(v) && digits_val(v) <= i32::MAX {
            digits_val(v)
        } else {
            0
        },
        None => 0,
    }
}

/// Read a counter out of a queue's attribute map.
#[verifier::loop_isolation(false)]
pub fn approx_count(attrs: &Vec<(String, String)>, key: &str) -> (r: i32)
    ensures
        r == count_of(attrs@, key@),
{
    proof {
        assert(attrs@.skip(0) =~= attrs@);
    }
    let mut i: usize = 0;
    while i < attrs.len()
        invariant
            i <= attrs@.len(),
            attr_lookup(attrs@, key@) == attr_lookup(attrs@.skip(i as int), key@),
        decreases attrs@.len() - i,
    {
        proof {
            assert(attrs@.skip(i as int)[0] == attrs@[i as int]);
            assert(attrs@.skip(i as int).drop_first() =~= attrs@.skip(i as int + 1));
        }
        if str_eq(attrs[i].0.as_str(), key) {
            return match parse_count(attrs[i].1.as_str()) {
                Some(v) => v,
                None => 0,
            };
        }
        i = i + 1;
    }
    0
}

/// Build one queue's descriptor from its URL and its attribute map; a
/// failed attribute fetch degrades the counters to zero rather than
/// failing the listing.
pub fn build_queue_info(queue_url: &str, attrs: Option<&Vec<(String, String)>>) -> (q: QueueInfo)
    ensures
        q.name@ == suffix_after_last_slash(queue_url@),
        q.url@ == queue_url@,
        q.queue_type@ == type_label(classify(suffix_after_last_slash(queue_url@))),
        match attrs {
            Some(a) => q.message_count == count_of(a@, "ApproximateNumberOfMessages"@)
                && q.messages_in_flight == count_of(a@, "ApproximateNumberOfMessagesNotVisible"@),
            None => q.message_count == 0 && q.messages_in_flight == 0,
        },
        q.oldest_message_age is None,
        q.last_activity is None,
{
    let name = last_segment(queue_url);
    let queue_type = determine_queue_type(name.as_str()).as_str();
    let (message_count, messages_in_flight): (i32, i32) = match attrs {
        Some(a) => (
            approx_count(a, "ApproximateNumberOfMessages"),
            approx_count(a, "ApproximateNumberOfMessagesNotVisible"),
        ),
        None => (0, 0),
    };
    QueueInfo {
        name,
        url: String::from_str(queue_url),
        queue_type: String::from_str(queue_type),
        message_count,
        messages_in_flight,
        oldest_message_age: None,
        last_activity: None,
    }
}

/// Turn the aggregated messages into the listing entries, each with its
/// derived preview; order and every field carry over unchanged.
#[verifier::loop_isolation(false)]
pub fn message_infos(msgs: Vec<PeekedMessage>) -> (r: Vec<MessageInfo>)
    ensures
        r@.len() == msgs@.len(),
        forall|i: int|
            0 <= i < msgs@.len() ==> {
                &&& r@[i].message_id == msgs@[i].message_id
                &&& r@[i].receipt_handle == msgs@[i].receipt_handle
                &&& r@[i].body == msgs@[i].body
                &&& r@[i].attributes == msgs@[i].attributes
                &&& r@[i].preview@ == preview_spec(json_parse_of(msgs@[i].body@), msgs@[i].body@)
            },
{
    let ghost orig = msgs@;
    let mut msgs = msgs;
    let mut out: Vec<MessageInfo> = Vec::new();
    proof {
        assert(orig.skip(0) =~= orig);
    }
    while msgs.len() > 0
        invariant
            out@.len() + msgs@.len() == orig.len(),
            msgs@ == orig.skip(out@.len() as int),
            forall|i: int|
                0 <= i < out@.len() ==> {
                    &&& out@[i].message_id == orig[i].message_id
                    &&& out@[i].receipt_handle == orig[i].receipt_handle
                    &&& out@[i].body == orig[i].body
                    &&& out@[i].attributes == orig[i].attributes
                    &&& out@[i].preview@ == preview_spec(
                        json_parse_of(orig[i].body@),
                        orig[i].body@,
                    )
                },
        decreases msgs@.len(),
    {
        let ghost k = out@.len() as int;
        proof {
            assert(msgs@[0] == orig[k]);
            assert(msgs@.drop_first() =~= orig.skip(k + 1));
        }
        let m = msgs.remove(0);
        proof {
            assert(msgs@ =~= orig.skip(k + 1));
        }
        let preview = create_message_preview(m.body.as_str());
        let info = MessageInfo {
            message_id: m.message_id,
            receipt_handle: m.receipt_handle,
            body: m.body,
            attributes: m.attributes,
            preview,
        };
        out.push(info);
    }
    out
}

/// Assemble the message listing response.
pub fn build_messages_response(
    queue_name: String,
    queue_info: QueueInfo,
    total_count: i32,
    msgs: Vec<PeekedMessage>,
) -> (r: MessagesResponse)
    ensures
        r.queue_name == queue_name,
        r.total_count == total_count,
        r.queue_info == Some(queue_info),
        r.messages@.len() == msgs@.len(),
        forall|i: int|
            0 <= i < msgs@.len() ==> {
                &&& r.messages@[i].message_id == msgs@[i].message_id
                &&& r.messages@[i].receipt_handle == msgs@[i].receipt_handle
                &&& r.messages@[i].body == msgs@[i].body
                &&& r.messages@[i].attributes == msgs@[i].attributes
                &&& r.messages@[i].preview@ == preview_spec(
                    json_parse_of(msgs@[i].body@),
                    msgs@[i].body@,
                )
            },
{
    let messages = message_infos(msgs);
    MessagesResponse { queue_name, messages, total_count, queue_info: Some(queue_info) }
}

/// Decide what a queue-URL fetch outcome means: a backend failure or a
/// missing URL is the queue not being found, under the caller's name for it.
pub fn resolve_queue_url(fetched: Result<Option<String>, String>, queue_name: &str) -> (r: Result<
    String,
    ApiError,
>)
    ensures
        match fetched {
            Ok(Some(u)) => r matches Ok(url) && url == u,
            Ok(None) => r matches Err(e) && e matches ApiError::NotFound(m) && m@
                == "Queue URL not found for "@ + queue_name@,
            Err(_) => r matches Err(e) && e matches ApiError::NotFound(m) && m@
                == "Queue not found: "@ + queue_name@,
        },
{
    match fetched {
        Ok(Some(u)) => Ok(u),
        Ok(None) => {
            let mut msg = String::from_str("Queue URL not found for ");
            msg.append(queue_name);
            Err(ApiError::NotFound(msg))
        },
        Err(_) => {
            let mut msg = String::from_str("Queue not found: ");
            msg.append(queue_name);
            Err(ApiError::NotFound(msg))
        },
    }
}

/// Decide what a purge outcome means: success yields the confirmation
/// message, a backend failure surfaces as a backend error with the detail
/// kept for the log.
pub fn purge_response(outcome: Result<(), String>, queue_name: &str) -> (r: Result<
    String,
    ApiError,
>)
    ensures
        match outcome {
            Ok(_) => r matches Ok(m) && m@ == "Queue '"@ + queue_name@
                + "' has been purged successfully"@,
            Err(e) => r matches Err(err) && err matches ApiError::Aws(m) && m@
                == "Failed to purge queue: "@ + e@,
        },
{
    match outcome {
        Ok(_) => {
            let mut msg = String::from_str("Queue '");
            msg.append(queue_name);
            msg.append("' has been purged successfully");
            Ok(msg)
        },
        Err(e) => {
            let mut msg = String::from_str("Failed to purge queue: ");
            msg.append(e.as_str());
            Err(ApiError::Aws(msg))
        },
    }
}

/// Decide what a delete outcome means.
pub fn delete_message_response(outcome: Result<(), String>) -> (r: Result<String, ApiError>)
    ensures
        match outcome {
            Ok(_) => r matches Ok(m) && m@ == "Message deleted successfully"@,
            Err(e) => r matches Err(err) && err matches ApiError::Aws(m) && m == e,
        },
{
    match outcome {
        Ok(_) => Ok(String::from_str("Message deleted successfully")),
        Err(e) => Err(ApiError::Aws(e)),
    }
}

/// Decide what the send half of a redrive means: a send failure aborts
/// the redrive before any delete is attempted.
pub fn redrive_after_send(send_outcome: Result<(), String>) -> (r: Result<(), ApiError>)
    ensures
        match send_outcome {
            Ok(_) => r is Ok,
            Err(e) => r matches Err(err) && err matches ApiError::Aws(m) && m@
                == "Failed to send message to target queue: "@ + e@,
        },
{
    match send_outcome {
        Ok(_) => Ok(()),
        Err(e) => {
            let mut msg = String::from_str("Failed to send message to target queue: ");
            msg.append(e.as_str());
            Err(ApiError::Aws(msg))
        },
    }
}

/// Decide what the delete half of a redrive means, after the send already
/// succeeded. A delete failure here leaves the message in both queues
/// until reconciled; it is surfaced to the caller as an error, never
/// hidden behind the successful send.
pub fn redrive_after_delete(
    delete_outcome: Result<(), String>,
    source_queue: &str,
    target_queue: &str,
) -> (r: Result<String, ApiError>)
    ensures
        match delete_outcome {
            Ok(_) => r matches Ok(m) && m@ == "Message moved from "@ + source_queue@ + " to "@
                + target_queue@,
            Err(e) => r matches Err(err) && err matches ApiError::Aws(m) && m@
                == "Failed to delete message from DLQ: "@ + e@,
        },
{
    match delete_outcome {
        Ok(_) => {
            let mut msg = String::from_str("Message moved from ");
            msg.append(source_queue);
            msg.append(" to ");
            msg.append(target_queue);
            proof {
                assert(msg@ =~= "Message moved from "@ + source_queue@ + " to "@ + target_queue@);
            }
            Ok(msg)
        },
        Err(e) => {
            let mut msg = String::from_str("Failed to delete message from DLQ: ");
            msg.append(e.as_str());
            Err(ApiError::Aws(msg))
        },
    }
}

} // verus!
