//! Queue type classification: a queue name maps to a category by
//! case-insensitive marker matching, with dead-letter markers taking
//! precedence over the outbound marker.
use vstd::prelude::*;
use crate::strutil::{
    contains_folded, contains_folded_exec, fold_char, folded, match_at, starts_with_folded,
    starts_with_folded_exec,
};

verus! {

/// The category of a queue, read off its name.
#[derive(Clone, Copy, Debug, PartialEq, Eq, Structural)]
pub enum QueueType {
    Inbound,
    Outbound,
    Dlq,
}

/// The name carries a dead-letter marker: a `-dlq` substring or a `dlq-`
/// prefix, either in any letter case.
pub open spec fn has_dlq_marker(name: Seq<char>) -> bool {
    contains_folded(name, "-dlq"@) || starts_with_folded(name, "dlq-"@)
}

/// The name carries the outbound marker, in any letter case.
pub open spec fn has_outbound_marker(name: Seq<char>) -> bool {
    contains_folded(name, "outbound"@)
}

/// The classification rule: dead-letter markers win over the outbound
/// marker; a name with neither is inbound.
pub open spec fn classify(name: Seq<char>) -> QueueType {
    if has_dlq_marker(name) {
        QueueType::Dlq
    } else if has_outbound_marker(name) {
        QueueType::Outbound
    } else {
        QueueType::Inbound
    }
}

/// Determine the queue category from the queue name.
pub fn determine_queue_type(queue_name: &str) -> (t: QueueType)
    ensures
        t == classify(queue_name@),
{
    if contains_folded_exec(queue_name, "-dlq") || starts_with_folded_exec(queue_name, "dlq-") {
        QueueType::Dlq
    } else if contains_folded_exec(queue_name, "outbound") {
        QueueType::Outbound
    } else {
        QueueType::Inbound
    }
}

/// The label of each category, as the listing reports it.
pub open spec fn type_label(t: QueueType) -> Seq<char> {
    match t {
        QueueType::Inbound => "inbound"@,
        QueueType::Outbound => "outbound"@,
        QueueType::Dlq => "dlq"@,
    }
}

impl QueueType {
    /// The category's label.
    pub fn as_str(self) -> (r: &'static str)
        ensures
            r@ == type_label(self),
    {
        match self {
            QueueType::Inbound => "inbound",
            QueueType::Outbound => "outbound",
            QueueType::Dlq => "dlq",
        }
    }
}

/// One character of the name lowered or raised in case, ASCII-wise.
pub open spec fn ascii_lower_char(c: char) -> char {
    if 65 <= c as u32 && c as u32 <= 90 {
        ((c as u32 + 32) as u32) as char
    } else {
        c
    }
}

pub open spec fn ascii_upper_char(c: char) -> char {
    if 97 <= c as u32 && c as u32 <= 122 {
        ((c as u32 - 32) as u32) as char
    } else {
        c
    }
}

/// The name lowered, or raised, in case, ASCII-wise.
pub open spec fn ascii_lower(s: Seq<char>) -> Seq<char> {
    s.map_values(|c: char| ascii_lower_char(c))
}

pub open spec fn ascii_upper(s: Seq<char>) -> Seq<char> {
    s.map_values(|c: char| ascii_upper_char(c))
}

/// Names that agree up to letter case classify alike.
pub proof fn lemma_classify_case_variant(s: Seq<char>, t: Seq<char>)
    requires
        folded(s) == folded(t),
    ensures
        classify(s) == classify(t),
{
    lemma_markers_case_variant(s, t, "-dlq"@);
    lemma_markers_case_variant(s, t, "dlq-"@);
    lemma_markers_case_variant(s, t, "outbound"@);
}

/// Classification is insensitive to letter case: raising or lowering the
/// case of the whole name, and classifying again, changes nothing.
pub proof fn lemma_classify_case_insensitive(s: Seq<char>)
    ensures
        classify(ascii_lower(s)) == classify(s),
        classify(ascii_upper(s)) == classify(s),
        classify(ascii_lower(ascii_lower(s))) == classify(ascii_lower(s)),
{
    lemma_folded_of_case_change(s);
    lemma_folded_of_case_change(ascii_lower(s));
    lemma_classify_case_variant(ascii_lower(s), s);
    lemma_classify_case_variant(ascii_upper(s), s);
    lemma_classify_case_variant(ascii_lower(ascii_lower(s)), ascii_lower(s));
}

proof fn lemma_folded_of_case_change(s: Seq<char>)
    ensures
        folded(ascii_lower(s)) == folded(s),
        folded(ascii_upper(s)) == folded(s),
{
    assert(folded(ascii_lower(s)) =~= folded(s)) by {
        assert forall|i: int| 0 <= i < s.len() implies fold_char(ascii_lower(s)[i]) == fold_char(
            s[i],
        ) by {
            lemma_fold_of_case_change(s[i]);
        }
    }
    assert(folded(ascii_upper(s)) =~= folded(s)) by {
        assert forall|i: int| 0 <= i < s.len() implies fold_char(ascii_upper(s)[i]) == fold_char(
            s[i],
        ) by {
            lemma_fold_of_case_change(s[i]);
        }
    }
}

/// Dead-letter precedence: a name that carries both a dead-letter marker
/// and the outbound marker classifies as a dead-letter queue.
pub proof fn lemma_dlq_precedence(name: Seq<char>)
    requires
        has_dlq_marker(name),
        has_outbound_marker(name),
    ensures
        classify(name) == QueueType::Dlq,
{
}

proof fn lemma_fold_of_case_change(c: char)
    ensures
        fold_char(ascii_lower_char(c)) == fold_char(c),
        fold_char(ascii_upper_char(c)) == fold_char(c),
{
}

proof fn lemma_markers_case_variant(s: Seq<char>, t: Seq<char>, pat: Seq<char>)
    requires
        folded(s) == folded(t),
    ensures
        contains_folded(s, pat) == contains_folded(t, pat),
        starts_with_folded(s, pat) == starts_with_folded(t, pat),
{
    assert(s.len() == t.len()) by {
        assert(folded(s).len() == s.len());
        assert(folded(t).len() == t.len());
    }
    assert forall|k: int| match_at(s, pat, k) implies match_at(t, pat, k) by {
        lemma_match_transfer(s, t, pat, k);
    }
    assert forall|k: int| match_at(t, pat, k) implies match_at(s, pat, k) by {
        lemma_match_transfer(t, s, pat, k);
    }
    assert(contains_folded(s, pat) == contains_folded(t, pat)) by {
        if contains_folded(s, pat) {
            let k = choose|k: int| match_at(s, pat, k);
            assert(match_at(t, pat, k));
        }
        if contains_folded(t, pat) {
            let k = choose|k: int| match_at(t, pat, k);
            assert(match_at(s, pat, k));
        }
    }
}

proof fn lemma_match_transfer(s: Seq<char>, t: Seq<char>, pat: Seq<char>, k: int)
    requires
        folded(s) == folded(t),
        s.len() == t.len(),
        match_at(s, pat, k),
    ensures
        match_at(t, pat, k),
{
    crate::strutil::lemma_folded_subrange(s, k, k + pat.len());
    crate::strutil::lemma_folded_subrange(t, k, k + pat.len());
}

} // verus!
