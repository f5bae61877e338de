use std::collections::HashSet;
use vstd::prelude::*;

use crate::auth_store::Requester;
use crate::enumerator::{ChatEnumerator, ChatKind, ChatSummary};
use crate::resolver::{PackedUser, get_packed_user, usable};

verus! {

broadcast use vstd::std_specs::hash::group_hash_axioms;

/// Chats asked for per page of the shared-chats lookup.
pub const PAGE_SIZE: usize = 100;

/// A query that cannot go ahead; each is told to the requester.
#[derive(Debug, Clone, Copy, PartialEq, Eq, Structural)]
pub enum QueryError {
    /// The target has no addressable handle.
    UnknownIdentity,
    /// The target is the operator or the bot account itself.
    SelfQuery,
    /// A reply query without a replied message, sender or handle.
    MissingReplyContext,
}

/// How the target was named.
#[derive(Debug, Clone, Copy, PartialEq, Eq, Structural)]
pub enum TargetSource {
    Username,
    NumericId,
    ReplySender,
}

/// The ids of the two accounts this service runs as.
#[derive(Debug, Clone, Copy, PartialEq, Eq, Structural)]
pub struct Accounts {
    pub operator_id: i64,
    pub bot_id: i64,
}

/// What the requester is shown.
#[derive(Debug, Clone, Copy, PartialEq, Eq, Structural)]
pub enum Tier {
    /// The full listing of shared monitored groups.
    Admin,
    /// Only their number.
    Plain,
}

/// One listed group: its title, and its public username if it has one.
#[derive(Debug, PartialEq, Eq)]
pub struct ChatLine {
    pub title: String,
    pub username: Option<String>,
}

/// The answer to a query.
#[derive(Debug, PartialEq, Eq)]
pub enum Report {
    /// The target shares no monitored group.
    NoShared { user_id: i64 },
    /// The number of shared monitored groups.
    Count { user_id: i64, count: usize },
    /// The number and the listing of shared monitored groups.
    Listing { user_id: i64, count: usize, lines: Vec<ChatLine> },
}

pub open spec fn is_self(accounts: Accounts, target_id: i64) -> bool {
    target_id == accounts.operator_id || target_id == accounts.bot_id
}

/// The error a query of `target_id` with handle `handle` meets, if any: a
/// self-query first, then a missing handle.
pub open spec fn query_error(
    accounts: Accounts,
    source: TargetSource,
    target_id: i64,
    handle: Option<i64>,
) -> Option<QueryError> {
    if is_self(accounts, target_id) {
        Some(QueryError::SelfQuery)
    } else if !usable(handle) {
        match source {
            TargetSource::ReplySender => Some(QueryError::MissingReplyContext),
            _ => Some(QueryError::UnknownIdentity),
        }
    } else {
        None
    }
}

/// Admins see the listing, but only in a private chat.
pub open spec fn tier_of(admins: Set<i64>, requester: Requester) -> Tier {
    if admins.contains(requester.chat_id) && requester.is_private {
        Tier::Admin
    } else {
        Tier::Plain
    }
}

/// The shared chats that are monitored groups, in order.
pub open spec fn shared_in(chats: Seq<ChatSummary>, groups: Set<i64>) -> Seq<ChatSummary>
    decreases chats.len(),
{
    if chats.len() == 0 {
        Seq::<ChatSummary>::empty()
    } else if groups.contains(chats.last().id) {
        shared_in(chats.drop_last(), groups).push(chats.last())
    } else {
        shared_in(chats.drop_last(), groups)
    }
}

/// The listing of chats: one line per channel, other kinds skipped.
pub open spec fn lines_of(chats: Seq<ChatSummary>) -> Seq<ChatLine>
    decreases chats.len(),
{
    if chats.len() == 0 {
        Seq::<ChatLine>::empty()
    } else {
        match chats.last().kind {
            ChatKind::Channel { title, username } => lines_of(chats.drop_last()).push(
                ChatLine { title, username },
            ),
            _ => lines_of(chats.drop_last()),
        }
    }
}

/// The report owed for the shared chats `chats` of `user_id`.
pub open spec fn report_of(
    chats: Seq<ChatSummary>,
    groups: Set<i64>,
    admins: Set<i64>,
    requester: Requester,
    user_id: i64,
    r: Report,
) -> bool {
    let shared = shared_in(chats, groups);
    if shared.len() == 0 {
        r == Report::NoShared { user_id }
    } else {
        match tier_of(admins, requester) {
            Tier::Admin => match r {
                Report::Listing { user_id: u, count, lines } => u == user_id && count
                    == shared.len() && lines@ == lines_of(shared),
                _ => false,
            },
            Tier::Plain => r == Report::Count { user_id, count: shared.len() as usize },
        }
    }
}

/// The number of shared monitored groups a report gives.
pub open spec fn report_count(r: Report) -> nat {
    match r {
        Report::NoShared { .. } => 0,
        Report::Count { count, .. } => count as nat,
        Report::Listing { count, .. } => count as nat,
    }
}

/// The single privilege boundary: admins, in a private chat, see listings.
pub fn privilege_tier(admins: &HashSet<i64>, requester: Requester) -> (r: Tier)
    ensures
        r == tier_of(admins@, requester),
{
    if admins.contains(&requester.chat_id) && requester.is_private {
        Tier::Admin
    } else {
        Tier::Plain
    }
}

/// The target of a reply query: the sender of the replied message, with its
/// handle if known. `None` when there is no replied message or no sender.
pub fn reply_target(sender: Option<(i64, Option<i64>)>) -> (r: Result<
    (i64, Option<i64>),
    QueryError,
>)
    ensures
        match sender {
            Some(s) => r == Ok::<(i64, Option<i64>), QueryError>(s),
            None => r == Err::<(i64, Option<i64>), QueryError>(QueryError::MissingReplyContext),
        },
{
    match sender {
        Some(s) => Ok(s),
        None => Err(QueryError::MissingReplyContext),
    }
}

/// Starts a query of the resolved target. A self-query is rejected before
/// anything else, so no enumeration exists for it; then a target without a
/// usable handle is rejected. Otherwise the enumeration of shared chats
/// starts at cursor 0 with pages of `PAGE_SIZE`.
pub fn start_query(
    accounts: Accounts,
    source: TargetSource,
    target_id: i64,
    handle: Option<i64>,
) -> (r: Result<ChatEnumerator, QueryError>)
    ensures
        match query_error(accounts, source, target_id, handle) {
            Some(e) => r matches Err(x) && x == e,
            None => r matches Ok(en) && {
                &&& en.wf()
                &&& en.user() == (PackedUser { id: target_id, access_hash: handle->0 })
                &&& en.page_size() == PAGE_SIZE
                &&& en.pages().len() == 0
                &&& en.cursor() == 0
                &&& !en.done()
            },
        },
        is_self(accounts, target_id) ==> r == Err::<ChatEnumerator, QueryError>(QueryError::SelfQuery),
{
    if target_id == accounts.operator_id || target_id == accounts.bot_id {
        return Err(QueryError::SelfQuery);
    }
    match get_packed_user(target_id, handle) {
        Some(user) => Ok(ChatEnumerator::new(user, PAGE_SIZE)),
        None => match source {
            TargetSource::ReplySender => Err(QueryError::MissingReplyContext),
            _ => Err(QueryError::UnknownIdentity),
        },
    }
}

fn line_of(c: &ChatSummary) -> (r: Option<ChatLine>)
    ensures
        match c.kind {
            ChatKind::Channel { title, username } => r == Some(ChatLine { title, username }),
            _ => r is None,
        },
{
    match &c.kind {
        ChatKind::Channel { title, username } => {
            let u = match username {
                Some(s) => Some(s.clone()),
                None => None,
            };
            Some(ChatLine { title: title.clone(), username: u })
        },
        _ => None,
    }
}

/// Filters the shared chats of `user_id` to the monitored groups and renders
/// what the requester's tier allows: nothing when none is shared, the count
/// for plain requesters, the count and the listing for admins.
pub fn build_report(
    chats: &Vec<ChatSummary>,
    groups: &HashSet<i64>,
    admins: &HashSet<i64>,
    requester: Requester,
    user_id: i64,
) -> (r: Report)
    ensures
        report_of(chats@, groups@, admins@, requester, user_id, r),
        report_count(r) == shared_in(chats@, groups@).len(),
{
    let mut count: usize = 0;
    let mut lines: Vec<ChatLine> = Vec::new();
    let mut i: usize = 0;
    while i < chats.len()
        invariant
            i <= chats@.len(),
            count == shared_in(chats@.take(i as int), groups@).len(),
            count <= i,
            lines@ == lines_of(shared_in(chats@.take(i as int), groups@)),
        decreases chats@.len() - i,
    {
        let c = &chats[i];
        proof {
            assert(chats@.take(i + 1).drop_last() =~= chats@.take(i as int));
            assert(chats@.take(i + 1).last() == chats@[i as int]);
        }
        if groups.contains(&c.id) {
            let ghost prev = shared_in(chats@.take(i as int), groups@);
            proof {
                assert(prev.push(*c).drop_last() =~= prev);
            }
            match line_of(c) {
                Some(l) => lines.push(l),
                None => {},
            }
            count = count + 1;
        }
        i = i + 1;
    }
    proof {
        assert(chats@.take(i as int) =~= chats@);
    }
    if count == 0 {
        return Report::NoShared { user_id };
    }
    match privilege_tier(admins, requester) {
        Tier::Admin => Report::Listing { user_id, count, lines },
        Tier::Plain => Report::Count { user_id, count },
    }
}

/// The chats whose id is a monitored group.
pub open spec fn in_groups(groups: Set<i64>) -> spec_fn(ChatSummary) -> bool {
    |c: ChatSummary| groups.contains(c.id)
}

/// Whatever the monitored groups and the shared chats, the count a report
/// gives is the number of shared chats that lie in the monitored groups, and
/// the chats counted are exactly those.
pub proof fn lemma_count_is_shared_monitored(
    chats: Seq<ChatSummary>,
    groups: Set<i64>,
    r: Report,
)
    requires
        report_count(r) == shared_in(chats, groups).len(),
    ensures
        shared_in(chats, groups) == chats.filter(in_groups(groups)),
        report_count(r) == chats.filter(in_groups(groups)).len(),
        forall|c: ChatSummary| #[trigger]
            shared_in(chats, groups).contains(c) <==> (chats.contains(c) && groups.contains(c.id)),
    decreases chats.len(),
{
    lemma_shared_is_filter(chats, groups);
    assert forall|c: ChatSummary| #[trigger]
        shared_in(chats, groups).contains(c) <==> (chats.contains(c) && groups.contains(
            c.id,
        )) by {
        let f = chats.filter(in_groups(groups));
        if chats.contains(c) && groups.contains(c.id) {
            let k = choose|k: int| 0 <= k < chats.len() && chats[k] == c;
            chats.lemma_filter_contains(in_groups(groups), k);
        }
        if f.contains(c) {
            chats.lemma_filter_contains_rev(in_groups(groups), c);
            let k = choose|k: int| 0 <= k < f.len() && f[k] == c;
            chats.lemma_filter_pred(in_groups(groups), k);
        }
    }
}

proof fn lemma_shared_is_filter(chats: Seq<ChatSummary>, groups: Set<i64>)
    ensures
        shared_in(chats, groups) == chats.filter(in_groups(groups)),
    decreases chats.len(),
{
    reveal(Seq::filter);
    if chats.len() > 0 {
        lemma_shared_is_filter(chats.drop_last(), groups);
    }
}

} // verus!
