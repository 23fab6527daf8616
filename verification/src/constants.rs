use vstd::prelude::*;

verus! {

// Limits imposed by the queue backend and chosen for the dashboard.
pub const MAX_SQS_MESSAGES_PER_REQUEST: i32 = 10;
pub const SQS_VISIBILITY_TIMEOUT_PEEK: i32 = 300;
pub const DEFAULT_MESSAGE_LIMIT: i32 = 10;
pub const DASHBOARD_MESSAGE_LIMIT: i32 = 50;
pub const DASHBOARD_BATCH_COUNT: i32 = 5;

// Message preview configuration.
pub const MAX_PREVIEW_LENGTH: usize = 200;
pub const MAX_SUBJECT_PREVIEW_LENGTH: usize = 100;
pub const MAX_JSON_KEYS_IN_PREVIEW: usize = 5;

} // verus!
