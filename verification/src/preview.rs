//! Message preview: a short human-readable summary of a raw message body,
//! chosen by an ordered chain of heuristics over the parsed body, with a
//! plain-text truncation as the last resort. Total: every body yields a
//! preview, and the preview is a function of the body text alone.
use vstd::prelude::*;
use vstd::string::StringExecFns;
use crate::constants::{MAX_JSON_KEYS_IN_PREVIEW, MAX_PREVIEW_LENGTH, MAX_SUBJECT_PREVIEW_LENGTH};
use crate::json::{
    as_text, as_text_spec, get, get_spec, json_parse_of, parse_json, JsonValue,
};
use crate::strutil::{truncate_with_ellipsis, truncated};

verus! {

/// The summary of a body that holds an `email` field: sender address and
/// subject, with placeholders where either is missing or not text.
pub open spec fn email_preview_spec(email: JsonValue) -> Seq<char> {
    let from = match get_spec(email, "from"@) {
        Some(f) => match get_spec(f, "address"@) {
            Some(a) => match as_text_spec(a) {
                Some(s) => s,
                None => "unknown"@,
            },
            None => "unknown"@,
        },
        None => "unknown"@,
    };
    let subject = match get_spec(email, "subject"@) {
        Some(sv) => match as_text_spec(sv) {
            Some(s) => s,
            None => "(no subject)"@,
        },
        None => "(no subject)"@,
    };
    "Email from: "@ + from + ", Subject: "@ + subject
}

/// The first field present among three candidates, in that order.
pub open spec fn first_field_spec(v: JsonValue, k1: Seq<char>, k2: Seq<char>, k3: Seq<char>) -> Option<
    JsonValue,
> {
    match get_spec(v, k1) {
        Some(x) => Some(x),
        None => match get_spec(v, k2) {
            Some(x) => Some(x),
            None => get_spec(v, k3),
        },
    }
}

/// The summary of a body that names a message type; an identifier is
/// appended when one of the identifier fields holds non-empty text.
pub open spec fn type_preview_spec(v: JsonValue) -> Option<Seq<char>> {
    match first_field_spec(v, "messageType"@, "type"@, "eventType"@) {
        Some(tv) => match as_text_spec(tv) {
            Some(t) => {
                let id = match first_field_spec(v, "id"@, "messageId"@, "eventId"@) {
                    Some(iv) => match as_text_spec(iv) {
                        Some(s) => s,
                        None => Seq::<char>::empty(),
                    },
                    None => Seq::<char>::empty(),
                };
                if id.len() > 0 {
                    Some("Message type: "@ + t + ", ID: "@ + id)
                } else {
                    Some("Message type: "@ + t)
                }
            },
            None => None,
        },
        None => None,
    }
}

/// The summary of a body that carries a subject-like text field, truncated
/// to the configured subject preview length.
pub open spec fn subject_preview_spec(v: JsonValue) -> Option<Seq<char>> {
    match first_field_spec(v, "subject"@, "description"@, "message"@) {
        Some(sv) => match as_text_spec(sv) {
            Some(s) => Some("Subject: "@ + truncated(s, MAX_SUBJECT_PREVIEW_LENGTH as int)),
            None => None,
        },
        None => None,
    }
}

/// The first `n` field names of an object, comma-joined, in field order.
pub open spec fn keys_join_spec(entries: Seq<(String, JsonValue)>, n: int) -> Seq<char>
    decreases n,
{
    if n <= 0 {
        Seq::<char>::empty()
    } else if n == 1 {
        entries[0].0@
    } else {
        keys_join_spec(entries, n - 1) + ", "@ + entries[n - 1].0@
    }
}

/// The generic summary of an object no other heuristic matched.
pub open spec fn keys_preview_spec(entries: Seq<(String, JsonValue)>) -> Seq<char> {
    let n = if entries.len() < MAX_JSON_KEYS_IN_PREVIEW {
        entries.len() as int
    } else {
        MAX_JSON_KEYS_IN_PREVIEW as int
    };
    "JSON with keys: "@ + keys_join_spec(entries, n)
}

/// The last resort: the body itself, cut to the preview length.
pub open spec fn plain_preview_spec(body: Seq<char>) -> Seq<char> {
    truncated(body, MAX_PREVIEW_LENGTH as int)
}

/// The preview of a body whose parse outcome is `parsed`: the heuristics
/// in order, then the key listing for other objects, then plain text.
pub open spec fn preview_spec(parsed: Option<JsonValue>, body: Seq<char>) -> Seq<char> {
    match parsed {
        Some(v) => match get_spec(v, "email"@) {
            Some(email) => email_preview_spec(email),
            None => match type_preview_spec(v) {
                Some(p) => p,
                None => match subject_preview_spec(v) {
                    Some(p) => p,
                    None => match v {
                        JsonValue::Object(es) => keys_preview_spec(es@),
                        _ => plain_preview_spec(body),
                    },
                },
            },
        },
        None => plain_preview_spec(body),
    }
}

fn email_preview(email: &JsonValue) -> (r: String)
    ensures
        r@ == email_preview_spec(*email),
{
    let from: &str = match get(email, "from") {
        Some(f) => match get(f, "address") {
            Some(a) => match as_text(a) {
                Some(s) => s.as_str(),
                None => "unknown",
            },
            None => "unknown",
        },
        None => "unknown",
    };
    let subject: &str = match get(email, "subject") {
        Some(sv) => match as_text(sv) {
            Some(s) => s.as_str(),
            None => "(no subject)",
        },
        None => "(no subject)",
    };
    let mut out = String::from_str("Email from: ");
    out.append(from);
    out.append(", Subject: ");
    out.append(subject);
    proof {
        assert(out@ =~= email_preview_spec(*email));
    }
    out
}

fn first_field<'a>(v: &'a JsonValue, k1: &str, k2: &str, k3: &str) -> (r: Option<&'a JsonValue>)
    ensures
        match r {
            Some(x) => first_field_spec(*v, k1@, k2@, k3@) == Some(*x),
            None => first_field_spec(*v, k1@, k2@, k3@) is None,
        },
{
    match get(v, k1) {
        Some(x) => Some(x),
        None => match get(v, k2) {
            Some(x) => Some(x),
            None => get(v, k3),
        },
    }
}

fn type_preview(v: &JsonValue) -> (r: Option<String>)
    ensures
        match r {
            Some(p) => type_preview_spec(*v) == Some(p@),
            None => type_preview_spec(*v) is None,
        },
{
    let tv = match first_field(v, "messageType", "type", "eventType") {
        Some(x) => x,
        None => {
            return None;
        },
    };
    let t = match as_text(tv) {
        Some(s) => s,
        None => {
            return None;
        },
    };
    let id: &str = match first_field(v, "id", "messageId", "eventId") {
        Some(iv) => match as_text(iv) {
            Some(s) => s.as_str(),
            None => "",
        },
        None => "",
    };
    proof {
        reveal_strlit("");
    }
    let mut out = String::from_str("Message type: ");
    out.append(t.as_str());
    if id.unicode_len() > 0 {
        out.append(", ID: ");
        out.append(id);
        proof {
            assert(out@ =~= type_preview_spec(*v).unwrap());
        }
        Some(out)
    } else {
        proof {
            assert(out@ =~= type_preview_spec(*v).unwrap());
        }
        Some(out)
    }
}

fn subject_preview(v: &JsonValue) -> (r: Option<String>)
    ensures
        match r {
            Some(p) => subject_preview_spec(*v) == Some(p@),
            None => subject_preview_spec(*v) is None,
        },
{
    let sv = match first_field(v, "subject", "description", "message") {
        Some(x) => x,
        None => {
            return None;
        },
    };
    let s = match as_text(sv) {
        Some(s) => s,
        None => {
            return None;
        },
    };
    let cut = truncate_with_ellipsis(s.as_str(), MAX_SUBJECT_PREVIEW_LENGTH);
    let mut out = String::from_str("Subject: ");
    out.append(cut.as_str());
    proof {
        assert(out@ =~= subject_preview_spec(*v).unwrap());
    }
    Some(out)
}

#[verifier::loop_isolation(false)]
fn keys_preview(entries: &Vec<(String, JsonValue)>) -> (r: String)
    ensures
        r@ == keys_preview_spec(entries@),
{
    let n = if entries.len() < MAX_JSON_KEYS_IN_PREVIEW {
        entries.len()
    } else {
        MAX_JSON_KEYS_IN_PREVIEW
    };
    let mut out = String::from_str("JSON with keys: ");
    proof {
        assert(out@ =~= "JSON with keys: "@ + keys_join_spec(entries@, 0));
    }
    let mut i: usize = 0;
    while i < n
        invariant
            i <= n,
            out@ == "JSON with keys: "@ + keys_join_spec(entries@, i as int),
        decreases n - i,
    {
        if i > 0 {
            out.append(", ");
        }
        out.append(entries[i].0.as_str());
        proof {
            assert(out@ =~= "JSON with keys: "@ + keys_join_spec(entries@, i as int + 1));
        }
        i = i + 1;
    }
    out
}

/// The preview of a body with a given parse outcome: exactly the ordered
/// heuristic chain. Public so that the choice of preview can be exercised
/// on any parse tree directly.
pub fn preview_of_parsed(parsed: &Option<JsonValue>, body: &str) -> (r: String)
    ensures
        r@ == preview_spec(*parsed, body@),
{
    match parsed {
        Some(v) => {
            match get(v, "email") {
                Some(email) => email_preview(email),
                None => {
                    match type_preview(v) {
                        Some(p) => p,
                        None => {
                            match subject_preview(v) {
                                Some(p) => p,
                                None => {
                                    match v {
                                        JsonValue::Object(es) => keys_preview(es),
                                        _ => truncate_with_ellipsis(body, MAX_PREVIEW_LENGTH),
                                    }
                                },
                            }
                        },
                    }
                },
            }
        },
        None => truncate_with_ellipsis(body, MAX_PREVIEW_LENGTH),
    }
}

/// Create the preview of a raw message body. Never fails: every body,
/// well-formed or not, yields a summary.
pub fn create_message_preview(body: &str) -> (r: String)
    ensures
        r@ == preview_spec(json_parse_of(body@), body@),
{
    let parsed = parse_json(body);
    preview_of_parsed(&parsed, body)
}

/// The preview is a pure function of the body text: equal bodies yield
/// equal previews, whatever the parse outcome of that text is.
pub proof fn lemma_preview_deterministic(b1: Seq<char>, b2: Seq<char>)
    requires
        b1 == b2,
    ensures
        preview_spec(json_parse_of(b1), b1) == preview_spec(json_parse_of(b2), b2),
{
}

/// Truncation boundary: a plain-text body at most the preview length long
/// is returned unmodified; one character over it is cut to the length and
/// given a three-character ellipsis.
pub proof fn lemma_truncation_boundary(body: Seq<char>)
    ensures
        preview_spec(None, body) == plain_preview_spec(body),
        body.len() <= MAX_PREVIEW_LENGTH ==> plain_preview_spec(body) == body,
        body.len() == MAX_PREVIEW_LENGTH + 1 ==> plain_preview_spec(body) == body.subrange(
            0,
            MAX_PREVIEW_LENGTH as int,
        ) + "..."@,
        body.len() > MAX_PREVIEW_LENGTH ==> plain_preview_spec(body).len() == MAX_PREVIEW_LENGTH
            + 3,
{
    reveal_strlit("...");
}

} // verus!
