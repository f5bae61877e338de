//! Answers "which monitored groups does this identity share with the
//! operator account?": resolving a target to an addressable handle, paging
//! through the shared chats, filtering them against the allowlist, and
//! deciding what the requester may see.

mod auth_store;
mod enumerator;
mod query;
mod reconnect;
mod resolver;

pub use auth_store::{LoadOutcome, MainConfig, Requester};
pub use enumerator::{ChatEnumerator, ChatKind, ChatSummary, PageRequest};
pub use query::{
    Accounts, ChatLine, PAGE_SIZE, QueryError, Report, TargetSource, Tier, build_report,
    privilege_tier, reply_target, start_query,
};
pub use reconnect::{Reconnection, RetryDecision};
pub use resolver::{
    DIALOG_WINDOW, DialogEntry, PackedUser, find_in_dialogs, get_access_hash, get_packed_user,
    is_usable_handle,
};
