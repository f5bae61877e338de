use std::collections::HashSet;
use vstd::prelude::*;

verus! {

broadcast use vstd::std_specs::hash::group_hash_axioms;

/// Who sent a command: the chat it came from, and whether that chat is a
/// private one-to-one conversation with a user.
#[derive(Debug, Clone, Copy, PartialEq, Eq, Structural)]
pub struct Requester {
    pub chat_id: i64,
    pub is_private: bool,
}

/// The allowlist record: admin ids and monitored group ids.
#[derive(Debug)]
pub struct MainConfig {
    pub groups: HashSet<i64>,
    pub admins: HashSet<i64>,
}

/// What loading the backing record yields: the configuration to use and,
/// when the record was unreadable, the record that must replace it.
#[derive(Debug)]
pub struct LoadOutcome {
    pub config: MainConfig,
    pub rewrite: Option<MainConfig>,
}

/// Only the super-admin, writing from a private chat, may change the allowlist.
pub open spec fn may_mutate(requester: Requester, super_admin: i64) -> bool {
    requester.is_private && requester.chat_id == super_admin
}

/// The record written for `c`: `c` itself, or an empty record for `None`.
pub open spec fn rewritten(c: Option<MainConfig>, r: MainConfig) -> bool {
    match c {
        Some(c) => r.same_sets(&c),
        None => r.is_empty_record(),
    }
}

/// The outcome of loading a decoded record (`None`: it could not be decoded).
pub open spec fn loaded(decoded: Option<MainConfig>, r: LoadOutcome) -> bool {
    match decoded {
        Some(c) => r.config.same_sets(&c) && r.rewrite is None,
        None => r.config.is_empty_record() && (r.rewrite matches Some(w) && w.is_empty_record()),
    }
}

impl MainConfig {
    /// Both sets, as mathematical sets.
    pub open spec fn same_sets(&self, other: &MainConfig) -> bool {
        self.groups@ == other.groups@ && self.admins@ == other.admins@
    }

    pub open spec fn is_empty_record(&self) -> bool {
        self.groups@ == Set::<i64>::empty() && self.admins@ == Set::<i64>::empty()
    }

    /// A record with no admins and no groups.
    pub fn empty() -> (r: MainConfig)
        ensures
            r.is_empty_record(),
    {
        MainConfig { groups: HashSet::new(), admins: HashSet::new() }
    }

    /// On start-up: when no backing record exists, the empty record to create.
    pub fn init(exists: bool) -> (r: Option<MainConfig>)
        ensures
            exists <==> r is None,
            r matches Some(c) ==> c.is_empty_record(),
    {
        if !exists {
            Some(Self::rewrite_config(None))
        } else {
            None
        }
    }

    /// The full record that replaces the backing one: the given configuration,
    /// or an empty one.
    pub fn rewrite_config(c: Option<MainConfig>) -> (r: MainConfig)
        ensures
            rewritten(c, r),
    {
        match c {
            Some(c) => c,
            None => Self::empty(),
        }
    }

    /// Loading, given the decoded backing record (`None` when it could not be
    /// decoded). A malformed record is never an error: it yields an empty
    /// configuration and an empty record to write in its place.
    pub fn read_config(decoded: Option<MainConfig>) -> (r: LoadOutcome)
        ensures
            loaded(decoded, r),
    {
        match decoded {
            Some(c) => LoadOutcome { config: c, rewrite: None },
            None => LoadOutcome {
                config: Self::empty(),
                rewrite: Some(Self::rewrite_config(None)),
            },
        }
    }

    /// `/addadmin <id>`: adds `id` to the admins when the super-admin asks from
    /// a private chat; otherwise changes nothing. Returns whether it applied.
    pub fn add_admin(&mut self, requester: Requester, super_admin: i64, id: i64) -> (r: bool)
        ensures
            r == may_mutate(requester, super_admin),
            r ==> final(self).admins@ == old(self).admins@.insert(id),
            !r ==> final(self).admins@ == old(self).admins@,
            final(self).groups@ == old(self).groups@,
    {
        if may_mutate_exec(requester, super_admin) {
            self.admins.insert(id);
            true
        } else {
            false
        }
    }

    /// `/addgroup <id>`: adds `id` to the monitored groups when the super-admin
    /// asks from a private chat; otherwise changes nothing. Returns whether it
    /// applied.
    pub fn add_group(&mut self, requester: Requester, super_admin: i64, id: i64) -> (r: bool)
        ensures
            r == may_mutate(requester, super_admin),
            r ==> final(self).groups@ == old(self).groups@.insert(id),
            !r ==> final(self).groups@ == old(self).groups@,
            final(self).admins@ == old(self).admins@,
    {
        if may_mutate_exec(requester, super_admin) {
            self.groups.insert(id);
            true
        } else {
            false
        }
    }
}

fn may_mutate_exec(requester: Requester, super_admin: i64) -> (r: bool)
    ensures
        r == may_mutate(requester, super_admin),
{
    requester.is_private && requester.chat_id == super_admin
}

/// Writing a configuration and loading the record back yields the same sets:
/// the record keeps set contents, whatever order the ids were added in.
pub proof fn lemma_persist_then_load(c: MainConfig, written: MainConfig, back: LoadOutcome)
    requires
        rewritten(Some(c), written),
        loaded(Some(written), back),
    ensures
        back.config.groups@ == c.groups@,
        back.config.admins@ == c.admins@,
        back.rewrite is None,
{
}

/// Loading a record that cannot be decoded yields the empty configuration,
/// and the record written in its place loads back as that same empty one.
pub proof fn lemma_corrupt_record_resets(back: LoadOutcome, reread: LoadOutcome)
    requires
        loaded(None, back),
        back.rewrite matches Some(w) && loaded(Some(w), reread),
    ensures
        back.config.is_empty_record(),
        reread.config.is_empty_record(),
        reread.rewrite is None,
{
}

/// Adding the same ids in two different orders gives the same set.
pub proof fn lemma_insertion_order(s: Set<i64>, a: i64, b: i64)
    ensures
        s.insert(a).insert(b) == s.insert(b).insert(a),
{
    assert(s.insert(a).insert(b) =~= s.insert(b).insert(a));
}

} // verus!
