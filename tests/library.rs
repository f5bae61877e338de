use std::collections::HashSet;

use shared_chats::{
    Accounts, ChatEnumerator, ChatKind, ChatLine, ChatSummary, DialogEntry, MainConfig,
    PackedUser, QueryError, Reconnection, Report, Requester, RetryDecision, TargetSource, Tier,
    build_report, find_in_dialogs, get_access_hash, get_packed_user, is_usable_handle,
    privilege_tier, reply_target, start_query, PAGE_SIZE,
};

const SUPER: i64 = 42;

fn channel(id: i64, title: &str, username: Option<&str>) -> ChatSummary {
    ChatSummary {
        id,
        kind: ChatKind::Channel {
            title: title.to_string(),
            username: username.map(|u| u.to_string()),
        },
    }
}

fn set(ids: &[i64]) -> HashSet<i64> {
    ids.iter().copied().collect()
}

fn config(groups: &[i64], admins: &[i64]) -> MainConfig {
    MainConfig { groups: set(groups), admins: set(admins) }
}

fn private(chat_id: i64) -> Requester {
    Requester { chat_id, is_private: true }
}

fn user() -> PackedUser {
    PackedUser { id: 9, access_hash: 77 }
}

fn page(start: i64, n: usize) -> Vec<ChatSummary> {
    (0..n as i64).map(|k| channel(start + k, "t", None)).collect()
}

#[test]
fn backoff_grows_as_powers_of_five() {
    let p = Reconnection;
    assert_eq!(p.should_retry(0), RetryDecision::RetryAfterMillis(1));
    assert_eq!(p.should_retry(1), RetryDecision::RetryAfterMillis(5));
    assert_eq!(p.should_retry(2), RetryDecision::RetryAfterMillis(25));
    assert_eq!(p.should_retry(3), RetryDecision::RetryAfterMillis(125));
    assert_eq!(p.should_retry(4), RetryDecision::RetryAfterMillis(625));
    assert_eq!(p.should_retry(5), RetryDecision::RetryAfterMillis(3125));
}

#[test]
fn backoff_gives_up_past_five_attempts() {
    let p = Reconnection;
    assert_eq!(p.should_retry(6), RetryDecision::GiveUp);
    assert_eq!(p.should_retry(usize::MAX), RetryDecision::GiveUp);
}

#[test]
fn init_creates_empty_record_only_when_absent() {
    assert!(MainConfig::init(true).is_none());
    let c = MainConfig::init(false).unwrap();
    assert!(c.groups.is_empty());
    assert!(c.admins.is_empty());
}

#[test]
fn rewrite_keeps_given_record() {
    let c = MainConfig::rewrite_config(Some(config(&[1, 2], &[3])));
    assert_eq!(c.groups, set(&[2, 1]));
    assert_eq!(c.admins, set(&[3]));
    let e = MainConfig::rewrite_config(None);
    assert!(e.groups.is_empty() && e.admins.is_empty());
}

#[test]
fn load_of_valid_record_keeps_sets() {
    let written = MainConfig::rewrite_config(Some(config(&[200, 100], &[7, 5])));
    let out = MainConfig::read_config(Some(written));
    assert_eq!(out.config.groups, set(&[100, 200]));
    assert_eq!(out.config.admins, set(&[5, 7]));
    assert!(out.rewrite.is_none());
}

#[test]
fn load_of_corrupt_record_resets_to_empty() {
    let out = MainConfig::read_config(None);
    assert!(out.config.groups.is_empty());
    assert!(out.config.admins.is_empty());
    let w = out.rewrite.unwrap();
    assert!(w.groups.is_empty() && w.admins.is_empty());
    let again = MainConfig::read_config(Some(w));
    assert!(again.config.groups.is_empty() && again.rewrite.is_none());
}

#[test]
fn insertion_order_does_not_matter() {
    let mut a = MainConfig::empty();
    let mut b = MainConfig::empty();
    for id in [3, 1, 2] {
        a.add_group(private(SUPER), SUPER, id);
    }
    for id in [2, 3, 1] {
        b.add_group(private(SUPER), SUPER, id);
    }
    assert_eq!(a.groups, b.groups);
}

#[test]
fn add_admin_by_super_admin_in_private() {
    let mut c = config(&[1], &[]);
    assert!(c.add_admin(private(SUPER), SUPER, 5));
    assert_eq!(c.admins, set(&[5]));
    assert_eq!(c.groups, set(&[1]));
}

#[test]
fn add_admin_by_other_is_no_op() {
    let mut c = config(&[1], &[2]);
    assert!(!c.add_admin(private(43), SUPER, 5));
    assert_eq!(c.admins, set(&[2]));
    let group_chat = Requester { chat_id: SUPER, is_private: false };
    assert!(!c.add_admin(group_chat, SUPER, 5));
    assert_eq!(c.admins, set(&[2]));
}

#[test]
fn add_group_by_super_admin_only() {
    let mut c = config(&[], &[]);
    assert!(!c.add_group(private(1), SUPER, 100));
    assert!(c.groups.is_empty());
    assert!(c.add_group(private(SUPER), SUPER, 100));
    assert!(c.add_group(private(SUPER), SUPER, 100));
    assert_eq!(c.groups, set(&[100]));
    assert!(c.admins.is_empty());
}

#[test]
fn usable_handles() {
    assert!(is_usable_handle(Some(5)));
    assert!(is_usable_handle(Some(-5)));
    assert!(!is_usable_handle(Some(0)));
    assert!(!is_usable_handle(None));
}

#[test]
fn direct_lookup_wins() {
    let dialogs = vec![DialogEntry { is_user: true, id: 9, access_hash: Some(11) }];
    assert_eq!(get_access_hash(Some(77), &dialogs, 9), Some(77));
}

#[test]
fn falls_back_to_dialogs() {
    let dialogs = vec![
        DialogEntry { is_user: false, id: 9, access_hash: Some(1) },
        DialogEntry { is_user: true, id: 8, access_hash: Some(2) },
        DialogEntry { is_user: true, id: 9, access_hash: Some(3) },
        DialogEntry { is_user: true, id: 9, access_hash: Some(4) },
    ];
    assert_eq!(get_access_hash(Some(0), &dialogs, 9), Some(3));
    assert_eq!(get_access_hash(None, &dialogs, 9), Some(3));
    assert_eq!(find_in_dialogs(&dialogs, 8), Some(2));
}

#[test]
fn unresolvable_identity() {
    let dialogs = vec![
        DialogEntry { is_user: true, id: 9, access_hash: Some(0) },
        DialogEntry { is_user: true, id: 8, access_hash: Some(2) },
    ];
    assert_eq!(get_access_hash(None, &dialogs, 9), None);
    assert_eq!(get_access_hash(None, &dialogs, 10), None);
    assert_eq!(get_access_hash(None, &Vec::new(), 10), None);
}

#[test]
fn dialog_window_is_fifty() {
    let mut dialogs: Vec<DialogEntry> =
        (0..50).map(|k| DialogEntry { is_user: true, id: 1000 + k, access_hash: Some(5) }).collect();
    dialogs.push(DialogEntry { is_user: true, id: 9, access_hash: Some(3) });
    assert_eq!(find_in_dialogs(&dialogs, 9), None);
    assert_eq!(get_access_hash(None, &dialogs, 9), None);
    assert_eq!(find_in_dialogs(&dialogs, 1049), Some(5));
}

#[test]
fn packed_user_needs_nonzero_handle() {
    assert_eq!(get_packed_user(9, Some(3)), Some(PackedUser { id: 9, access_hash: 3 }));
    assert_eq!(get_packed_user(9, Some(0)), None);
    assert_eq!(get_packed_user(9, None), None);
}

#[test]
fn enumeration_full_pages_then_short() {
    let mut e = ChatEnumerator::new(user(), 100);
    let q = e.next_request().unwrap();
    assert_eq!((q.user_id, q.access_hash, q.max_id, q.limit), (9, 77, 0, 100));
    e.on_page(page(1, 100));
    assert_eq!(e.next_request().unwrap().max_id, 100);
    e.on_page(page(101, 100));
    assert_eq!(e.next_request().unwrap().max_id, 200);
    e.on_page(page(201, 30));
    assert!(e.is_done());
    assert!(e.next_request().is_none());
    let chats = e.into_chats();
    assert_eq!(chats.len(), 230);
    let ids: Vec<i64> = chats.iter().map(|c| c.id).collect();
    assert_eq!(ids, (1..=230).collect::<Vec<i64>>());
}

#[test]
fn enumeration_stops_on_empty_page() {
    let mut e = ChatEnumerator::new(user(), 2);
    e.on_page(page(1, 2));
    assert!(!e.is_done());
    e.on_page(Vec::new());
    assert!(e.is_done());
    assert!(e.next_request().is_none());
    assert_eq!(e.into_chats().len(), 2);
}

#[test]
fn enumeration_error_keeps_gathered() {
    let mut e = ChatEnumerator::new(user(), 3);
    e.on_page(page(1, 3));
    e.on_error();
    assert!(e.is_done());
    assert!(e.next_request().is_none());
    assert_eq!(e.into_chats().len(), 3);
}

#[test]
fn self_query_is_rejected() {
    let acc = Accounts { operator_id: 1, bot_id: 2 };
    assert_eq!(start_query(acc, TargetSource::NumericId, 1, Some(5)).err(), Some(QueryError::SelfQuery));
    assert_eq!(start_query(acc, TargetSource::Username, 2, Some(5)).err(), Some(QueryError::SelfQuery));
    assert_eq!(start_query(acc, TargetSource::ReplySender, 2, None).err(), Some(QueryError::SelfQuery));
}

#[test]
fn unknown_identity_is_rejected() {
    let acc = Accounts { operator_id: 1, bot_id: 2 };
    assert_eq!(start_query(acc, TargetSource::NumericId, 9, Some(0)).err(), Some(QueryError::UnknownIdentity));
    assert_eq!(start_query(acc, TargetSource::Username, 9, None).err(), Some(QueryError::UnknownIdentity));
    assert_eq!(start_query(acc, TargetSource::ReplySender, 9, None).err(), Some(QueryError::MissingReplyContext));
}

#[test]
fn query_starts_enumeration() {
    let acc = Accounts { operator_id: 1, bot_id: 2 };
    let e = start_query(acc, TargetSource::NumericId, 9, Some(77)).ok().unwrap();
    let q = e.next_request().unwrap();
    assert_eq!((q.user_id, q.access_hash, q.max_id, q.limit), (9, 77, 0, PAGE_SIZE as i32));
}

#[test]
fn reply_without_sender() {
    assert_eq!(reply_target(None), Err(QueryError::MissingReplyContext));
    assert_eq!(reply_target(Some((5, Some(6)))), Ok((5, Some(6))));
}

#[test]
fn tier_needs_admin_and_private_chat() {
    let admins = set(&[5]);
    assert_eq!(privilege_tier(&admins, private(5)), Tier::Admin);
    assert_eq!(privilege_tier(&admins, private(6)), Tier::Plain);
    assert_eq!(privilege_tier(&admins, Requester { chat_id: 5, is_private: false }), Tier::Plain);
}

fn scenario_chats() -> Vec<ChatSummary> {
    vec![
        channel(100, "Alpha", Some("alpha")),
        channel(300, "Other", Some("other")),
        channel(200, "Beta", None),
    ]
}

#[test]
fn admin_in_private_sees_listing() {
    let r = build_report(&scenario_chats(), &set(&[100, 200]), &set(&[5]), private(5), 9);
    let expected = vec![
        ChatLine { title: "Alpha".to_string(), username: Some("alpha".to_string()) },
        ChatLine { title: "Beta".to_string(), username: None },
    ];
    assert_eq!(r, Report::Listing { user_id: 9, count: 2, lines: expected });
}

#[test]
fn non_admin_sees_count_only() {
    let r = build_report(&scenario_chats(), &set(&[100, 200]), &set(&[5]), private(6), 9);
    assert_eq!(r, Report::Count { user_id: 9, count: 2 });
    let g = Requester { chat_id: 5, is_private: false };
    let r = build_report(&scenario_chats(), &set(&[100, 200]), &set(&[5]), g, 9);
    assert_eq!(r, Report::Count { user_id: 9, count: 2 });
}

#[test]
fn no_shared_monitored_group() {
    let r = build_report(&scenario_chats(), &set(&[1, 2]), &set(&[5]), private(5), 9);
    assert_eq!(r, Report::NoShared { user_id: 9 });
    let r = build_report(&Vec::new(), &set(&[100]), &set(&[5]), private(5), 9);
    assert_eq!(r, Report::NoShared { user_id: 9 });
}

#[test]
fn non_channel_kinds_counted_not_listed() {
    let chats = vec![
        ChatSummary { id: 100, kind: ChatKind::Group },
        channel(200, "Beta", Some("beta")),
        ChatSummary { id: 300, kind: ChatKind::Other },
        ChatSummary { id: 400, kind: ChatKind::Group },
    ];
    let r = build_report(&chats, &set(&[100, 200, 300]), &set(&[5]), private(5), 9);
    let expected = vec![ChatLine { title: "Beta".to_string(), username: Some("beta".to_string()) }];
    assert_eq!(r, Report::Listing { user_id: 9, count: 3, lines: expected });
}

#[test]
fn count_equals_shared_monitored() {
    let chats: Vec<ChatSummary> = (1..=10).map(|k| channel(k, "t", None)).collect();
    let groups = set(&[2, 4, 6, 8, 10, 12]);
    let r = build_report(&chats, &groups, &set(&[]), private(5), 9);
    assert_eq!(r, Report::Count { user_id: 9, count: 5 });
}
