//! Batch fetch aggregation: repeated bounded receive calls are folded into
//! one listing, deduplicated across calls by message id, bounded by the
//! dashboard budget, and stopped as soon as a call comes back short.
//!
//! The receive calls themselves are I/O and live outside the library; the
//! caller drives them, handing each returned batch to the aggregator while
//! it still accepts one.
use vstd::prelude::*;
use crate::constants::{
    DASHBOARD_BATCH_COUNT, DASHBOARD_MESSAGE_LIMIT, MAX_SQS_MESSAGES_PER_REQUEST,
};
use crate::strutil::str_eq;

verus! {

/// One message as a receive call returns it: a transient view of backend
/// state, never deleted or changed by the listing path.
pub struct PeekedMessage {
    pub message_id: String,
    pub receipt_handle: String,
    pub body: String,
    pub attributes: Vec<(String, String)>,
}

/// Some message in `msgs` already carries this id.
pub open spec fn id_seen(msgs: Seq<PeekedMessage>, id: Seq<char>) -> bool {
    exists|i: int| 0 <= i < msgs.len() && msgs[i].message_id@ == id
}

/// No two messages of `msgs` share an id.
pub open spec fn distinct_ids(msgs: Seq<PeekedMessage>) -> bool {
    forall|i: int, j: int|
        0 <= i < j < msgs.len() ==> msgs[i].message_id@ != msgs[j].message_id@
}

/// One receive batch folded into the accumulated listing: each message in
/// batch order, kept only when its id has not been seen yet.
pub open spec fn absorb(acc: Seq<PeekedMessage>, batch: Seq<PeekedMessage>) -> Seq<PeekedMessage>
    decreases batch.len(),
{
    if batch.len() == 0 {
        acc
    } else if id_seen(acc, batch[0].message_id@) {
        absorb(acc, batch.drop_first())
    } else {
        absorb(acc.push(batch[0]), batch.drop_first())
    }
}

/// Whether `msgs` holds this id.
fn contains_id(msgs: &Vec<PeekedMessage>, id: &String) -> (r: bool)
    ensures
        r == id_seen(msgs@, id@),
{
    let mut i: usize = 0;
    while i < msgs.len()
        invariant
            i <= msgs@.len(),
            forall|k: int| 0 <= k < i ==> msgs@[k].message_id@ != id@,
        decreases msgs@.len() - i,
    {
        if str_eq(msgs[i].message_id.as_str(), id.as_str()) {
            return true;
        }
        i = i + 1;
    }
    false
}

/// The state of one aggregation: local to one listing request, never
/// shared across requests.
pub struct Aggregator {
    pub messages: Vec<PeekedMessage>,
    pub batches_taken: u32,
    pub batch_limit: u32,
    pub done: bool,
}

impl Aggregator {
    /// The aggregation invariant: ids stay distinct and the listing never
    /// outgrows what the permitted calls could have returned.
    pub open spec fn wf(self) -> bool {
        &&& distinct_ids(self.messages@)
        &&& self.batch_limit <= DASHBOARD_BATCH_COUNT
        &&& self.batches_taken <= self.batch_limit
        &&& self.messages@.len() <= self.batches_taken * MAX_SQS_MESSAGES_PER_REQUEST
    }

    /// Another receive call is still permitted.
    pub open spec fn accepting(self) -> bool {
        &&& !self.done
        &&& self.batches_taken < self.batch_limit
    }

    /// Start an aggregation for a queue whose approximate total is
    /// `total_count`: a queue a single call could exhaust is asked once,
    /// any other up to the configured batch count.
    pub fn new(total_count: i32) -> (agg: Aggregator)
        ensures
            agg.wf(),
            agg.messages@ == Seq::<PeekedMessage>::empty(),
            agg.batches_taken == 0,
            !agg.done,
            agg.batch_limit == if total_count > MAX_SQS_MESSAGES_PER_REQUEST {
                DASHBOARD_BATCH_COUNT as u32
            } else {
                1u32
            },
    {
        let batch_limit: u32 = if total_count > MAX_SQS_MESSAGES_PER_REQUEST {
            DASHBOARD_BATCH_COUNT as u32
        } else {
            1
        };
        let agg = Aggregator { messages: Vec::new(), batches_taken: 0, batch_limit, done: false };
        proof {
            assert(agg.messages@ =~= Seq::<PeekedMessage>::empty());
        }
        agg
    }

    /// Whether the aggregation asks for a further receive call.
    pub fn wants_more(&self) -> (r: bool)
        ensures
            r == self.accepting(),
    {
        !self.done && self.batches_taken < self.batch_limit
    }

    /// Fold one receive batch in. New ids are appended in batch order;
    /// a short batch, or a listing that has reached the dashboard budget,
    /// ends the aggregation.
    #[verifier::loop_isolation(false)]
    pub fn push_batch(&mut self, batch: Vec<PeekedMessage>)
        requires
            old(self).wf(),
            old(self).accepting(),
            batch@.len() <= MAX_SQS_MESSAGES_PER_REQUEST,
        ensures
            final(self).wf(),
            final(self).messages@ == absorb(old(self).messages@, batch@),
            final(self).batches_taken == old(self).batches_taken + 1,
            final(self).batch_limit == old(self).batch_limit,
            final(self).done == (batch@.len() < MAX_SQS_MESSAGES_PER_REQUEST
                || final(self).messages@.len() >= DASHBOARD_MESSAGE_LIMIT),
            batch@.len() < MAX_SQS_MESSAGES_PER_REQUEST ==> !final(self).accepting(),
    {
        let ghost orig_msgs = self.messages@;
        let ghost orig_batch = batch@;
        let short = batch.len() < MAX_SQS_MESSAGES_PER_REQUEST as usize;
        let mut batch = batch;
        while batch.len() > 0
            invariant
                distinct_ids(self.messages@),
                absorb(orig_msgs, orig_batch) == absorb(self.messages@, batch@),
                self.messages@.len() + batch@.len() <= orig_msgs.len() + orig_batch.len(),
                self.batches_taken == old(self).batches_taken,
                self.batch_limit == old(self).batch_limit,
                self.done == old(self).done,
            decreases batch@.len(),
        {
            let ghost pre_batch = batch@;
            let ghost pre_msgs = self.messages@;
            let m = batch.remove(0);
            proof {
                assert(batch@ =~= pre_batch.drop_first());
            }
            if !contains_id(&self.messages, &m.message_id) {
                proof {
                    assert forall|i: int, j: int|
                        0 <= i < j < pre_msgs.push(m).len() implies pre_msgs.push(
                        m,
                    )[i].message_id@ != pre_msgs.push(m)[j].message_id@ by {
                        if j < pre_msgs.len() {
                            assert(pre_msgs[i].message_id@ != pre_msgs[j].message_id@);
                        } else {
                            assert(!id_seen(pre_msgs, m.message_id@));
                        }
                    }
                }
                self.messages.push(m);
            }
        }
        proof {
            assert(absorb(self.messages@, batch@) == self.messages@);
        }
        self.batches_taken = self.batches_taken + 1;
        if short || self.messages.len() >= DASHBOARD_MESSAGE_LIMIT as usize {
            self.done = true;
        }
    }
}

/// Aggregation distinctness: whatever the receive calls returned, and in
/// whatever mixture of repeated ids, the listing holds each message id at
/// most once and never exceeds the dashboard budget.
pub proof fn lemma_aggregation_bounded(agg: Aggregator)
    requires
        agg.wf(),
    ensures
        distinct_ids(agg.messages@),
        agg.messages@.len() <= DASHBOARD_MESSAGE_LIMIT,
{
}

} // verus!
