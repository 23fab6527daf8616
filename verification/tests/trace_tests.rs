use mailflow_api::trace::make_trace_context;

#[test]
fn test_trace_keeps_supplied_correlation_id() {
    let ctx = make_trace_context(Some("my-correlation-id"));
    assert_eq!(ctx.correlation_id, "my-correlation-id");
    let (corr, req) = ctx.response_headers();
    assert_eq!(corr, "my-correlation-id");
    assert_eq!(req, ctx.request_id);
}

#[test]
fn test_trace_generates_missing_correlation_id() {
    let ctx = make_trace_context(None);
    assert!(!ctx.correlation_id.is_empty());
    assert_eq!(ctx.correlation_id.len(), 36);
}

#[test]
fn test_trace_request_id_fresh() {
    let ctx = make_trace_context(Some("my-correlation-id"));
    assert_eq!(ctx.request_id.len(), 36);
    assert_ne!(ctx.request_id, "my-correlation-id");
    let other = make_trace_context(Some("my-correlation-id"));
    assert_ne!(ctx.request_id, other.request_id);
}
