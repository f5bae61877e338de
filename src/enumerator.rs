use vstd::prelude::*;

use crate::resolver::PackedUser;

verus! {

/// The kind of a shared chat. Only channel-like chats carry a title and a
/// public username.
#[derive(Debug, PartialEq, Eq)]
pub enum ChatKind {
    Channel { title: String, username: Option<String> },
    Group,
    Other,
}

/// One chat shared with the target identity.
#[derive(Debug, PartialEq, Eq)]
pub struct ChatSummary {
    pub id: i64,
    pub kind: ChatKind,
}

/// One request for a page of shared chats.
#[derive(Debug, Clone, Copy, PartialEq, Eq, Structural)]
pub struct PageRequest {
    pub user_id: i64,
    pub access_hash: i64,
    pub max_id: i64,
    pub limit: i32,
}

/// All the pages, in the order they came.
pub open spec fn flatten(pages: Seq<Seq<ChatSummary>>) -> Seq<ChatSummary>
    decreases pages.len(),
{
    if pages.len() == 0 {
        Seq::<ChatSummary>::empty()
    } else {
        flatten(pages.drop_last()) + pages.last()
    }
}

/// No page is shorter than `page_size`.
pub open spec fn all_full(pages: Seq<Seq<ChatSummary>>, page_size: nat) -> bool {
    forall|i: int| 0 <= i < pages.len() ==> #[trigger] pages[i].len() >= page_size
}

/// Every page holds exactly `page_size` chats.
pub open spec fn all_exactly(pages: Seq<Seq<ChatSummary>>, page_size: nat) -> bool {
    forall|i: int| 0 <= i < pages.len() ==> #[trigger] pages[i].len() == page_size
}

/// Paginates the shared-chats lookup for one identity. The caller asks for
/// `next_request`, performs it, and hands back the page (`on_page`) or the
/// failure (`on_error`), until `is_done`.
pub struct ChatEnumerator {
    user: PackedUser,
    page_size: usize,
    max_id: i64,
    chats: Vec<ChatSummary>,
    done: bool,
    failed: bool,
    pages: Ghost<Seq<Seq<ChatSummary>>>,
}

impl ChatEnumerator {
    /// The pages received so far.
    pub closed spec fn pages(&self) -> Seq<Seq<ChatSummary>> {
        self.pages@
    }

    pub closed spec fn page_size(&self) -> nat {
        self.page_size as nat
    }

    pub closed spec fn user(&self) -> PackedUser {
        self.user
    }

    /// The cursor of the next request.
    pub closed spec fn cursor(&self) -> i64 {
        self.max_id
    }

    /// The chats gathered so far.
    pub closed spec fn chats(&self) -> Seq<ChatSummary> {
        self.chats@
    }

    pub closed spec fn done(&self) -> bool {
        self.done
    }

    pub closed spec fn failed(&self) -> bool {
        self.failed
    }

    /// Every page but the last was full; the chats are the pages in order; the
    /// enumeration is over exactly when a request failed or a page came short.
    pub closed spec fn wf(&self) -> bool {
        &&& 0 < self.page_size <= i32::MAX
        &&& self.chats@ == flatten(self.pages@)
        &&& self.pages@.len() > 0 ==> all_full(self.pages@.drop_last(), self.page_size as nat)
        &&& self.done == (self.failed || (self.pages@.len() > 0 && self.pages@.last().len()
            < self.page_size))
        &&& (self.pages@.len() == 0 ==> self.max_id == 0)
        &&& (self.pages@.len() > 0 && self.pages@.last().len() > 0) ==> self.max_id
            == self.pages@.last().last().id
    }

    /// Starts an enumeration with the cursor at 0.
    pub fn new(user: PackedUser, page_size: usize) -> (r: ChatEnumerator)
        requires
            0 < page_size <= i32::MAX,
        ensures
            r.wf(),
            r.user() == user,
            r.page_size() == page_size,
            r.pages() == Seq::<Seq<ChatSummary>>::empty(),
            r.cursor() == 0,
            !r.done(),
            !r.failed(),
    {
        ChatEnumerator {
            user,
            page_size,
            max_id: 0,
            chats: Vec::new(),
            done: false,
            failed: false,
            pages: Ghost(Seq::empty()),
        }
    }

    pub fn is_done(&self) -> (r: bool)
        ensures
            r == self.done(),
    {
        self.done
    }

    /// The next page to ask for, or `None` once the enumeration is over.
    pub fn next_request(&self) -> (r: Option<PageRequest>)
        requires
            self.wf(),
        ensures
            self.done() <==> r is None,
            r matches Some(q) ==> q.user_id == self.user().id && q.access_hash
                == self.user().access_hash && q.max_id == self.cursor() && q.limit
                == self.page_size(),
    {
        if self.done {
            None
        } else {
            Some(
                PageRequest {
                    user_id: self.user.id,
                    access_hash: self.user.access_hash,
                    max_id: self.max_id,
                    limit: self.page_size as i32,
                },
            )
        }
    }

    /// Takes a page as the server sent it: its chats are appended in order;
    /// the cursor moves to the page's last chat; a page shorter than the page
    /// size, an empty one included, ends the enumeration.
    pub fn on_page(&mut self, page: Vec<ChatSummary>)
        requires
            old(self).wf(),
            !old(self).done(),
        ensures
            final(self).wf(),
            final(self).pages() == old(self).pages().push(page@),
            final(self).chats() == old(self).chats() + page@,
            final(self).done() == (page@.len() < old(self).page_size()),
            page@.len() > 0 ==> final(self).cursor() == page@.last().id,
            page@.len() == 0 ==> final(self).cursor() == old(self).cursor(),
            final(self).user() == old(self).user(),
            final(self).page_size() == old(self).page_size(),
            !final(self).failed(),
    {
        let ghost old_pages = self.pages@;
        let ghost pg = page@;
        let n = page.len();
        if n > 0 {
            self.max_id = page[n - 1].id;
        }
        let mut page = page;
        self.chats.append(&mut page);
        self.pages = Ghost(old_pages.push(pg));
        proof {
            assert(self.pages@.drop_last() =~= old_pages);
            assert(self.pages@.last() == pg);
            if old_pages.len() > 0 {
                assert forall|i: int| 0 <= i < old_pages.len() implies #[trigger] old_pages[i].len()
                    >= self.page_size by {
                    if i < old_pages.len() - 1 {
                        assert(old_pages[i] == old_pages.drop_last()[i]);
                    }
                }
            }
        }
        if n < self.page_size {
            self.done = true;
        }
    }

    /// Takes a failed request: the enumeration ends with what was gathered.
    pub fn on_error(&mut self)
        requires
            old(self).wf(),
        ensures
            final(self).wf(),
            final(self).pages() == old(self).pages(),
            final(self).chats() == old(self).chats(),
            final(self).done(),
            final(self).failed(),
            final(self).user() == old(self).user(),
            final(self).page_size() == old(self).page_size(),
    {
        self.failed = true;
        self.done = true;
    }

    /// The chats gathered, in page order.
    pub fn into_chats(self) -> (r: Vec<ChatSummary>)
        requires
            self.wf(),
        ensures
            r@ == self.chats(),
            r@ == flatten(self.pages()),
    {
        self.chats
    }
}

/// `n` full pages followed by a page shorter than `page_size` (possibly empty)
/// yield exactly `n * page_size + short` chats: the pages, each once, in order.
pub proof fn lemma_full_pages_then_short(pages: Seq<Seq<ChatSummary>>, page_size: nat, n: nat)
    requires
        pages.len() == n + 1,
        all_exactly(pages.drop_last(), page_size),
        pages.last().len() < page_size,
    ensures
        flatten(pages) == flatten(pages.drop_last()) + pages.last(),
        flatten(pages).len() == n * page_size + pages.last().len(),
{
    lemma_flatten_full_len(pages.drop_last(), page_size);
}

proof fn lemma_flatten_full_len(pages: Seq<Seq<ChatSummary>>, page_size: nat)
    requires
        all_exactly(pages, page_size),
    ensures
        flatten(pages).len() == pages.len() * page_size,
    decreases pages.len(),
{
    if pages.len() > 0 {
        let rest = pages.drop_last();
        assert(all_exactly(rest, page_size)) by {
            assert forall|i: int| 0 <= i < rest.len() implies #[trigger] rest[i].len()
                == page_size by {
                assert(rest[i] == pages[i]);
            }
        }
        lemma_flatten_full_len(rest, page_size);
        assert(pages[pages.len() - 1].len() == page_size);
        assert(flatten(pages).len() == rest.len() * page_size + page_size);
        assert((rest.len() + 1) * page_size == rest.len() * page_size + page_size) by (
        nonlinear_arith);
    }
}

/// Once a page comes short or empty the enumeration is over: no further
/// request is made, and the chats are all the pages received, in order.
pub proof fn lemma_short_page_ends(e: ChatEnumerator)
    requires
        e.wf(),
        e.pages().len() > 0,
        e.pages().last().len() < e.page_size(),
    ensures
        e.done(),
        e.chats() == flatten(e.pages()),
{
}

} // verus!
