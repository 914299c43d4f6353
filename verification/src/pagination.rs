//! The paginated user fetch: a state machine that requests page 0, 1, 2, ...
//! contiguously and stops at the first empty page.

use vstd::prelude::*;

use crate::types::User;

verus! {

/// The views of a sequence of pages.
pub open spec fn page_views(pages: Seq<Vec<User>>) -> Seq<Seq<User>> {
    pages.map_values(|p: Vec<User>| p@)
}

/// The users the pagination collects from `pages`: the concatenation of the
/// pages before the first empty one.
pub open spec fn users_collected(pages: Seq<Seq<User>>) -> Seq<User>
    decreases pages.len(),
{
    if pages.len() == 0 {
        Seq::empty()
    } else if pages[0].len() == 0 {
        Seq::empty()
    } else {
        pages[0] + users_collected(pages.drop_first())
    }
}

/// How many page requests the pagination issues against `pages`: one per
/// page up to and including the first empty one.
pub open spec fn pages_requested(pages: Seq<Seq<User>>) -> int
    decreases pages.len(),
{
    if pages.len() == 0 {
        0
    } else if pages[0].len() == 0 {
        1
    } else {
        1 + pages_requested(pages.drop_first())
    }
}

/// Sum of the page sizes up to the first empty page.
pub open spec fn page_len_sum(pages: Seq<Seq<User>>) -> int
    decreases pages.len(),
{
    if pages.len() == 0 {
        0
    } else if pages[0].len() == 0 {
        0
    } else {
        pages[0].len() + page_len_sum(pages.drop_first())
    }
}

/// Law: the total number of users fetched equals the sum of the page sizes
/// up to the first empty page.
pub proof fn lemma_users_collected_len(pages: Seq<Seq<User>>)
    ensures
        users_collected(pages).len() == page_len_sum(pages),
    decreases pages.len(),
{
    if pages.len() == 0 {
    } else if pages[0].len() == 0 {
    } else {
        lemma_users_collected_len(pages.drop_first());
    }
}

/// The pagination loop's state: the zero-based index of the next page to
/// request, the users collected so far, and whether an empty page has ended
/// the pagination.
pub struct Pagination {
    pub next_page: u32,
    pub users: Vec<User>,
    pub done: bool,
}

impl Pagination {
    /// A fresh pagination, about to request page 0.
    pub fn new() -> (r: Pagination)
        ensures
            r.next_page == 0,
            r.users@ == Seq::<User>::empty(),
            !r.done,
    {
        Pagination { next_page: 0, users: Vec::new(), done: false }
    }

    /// The page index to request next, or `None` once pagination has ended.
    pub fn current_request(&self) -> (r: Option<u32>)
        ensures
            r == if self.done {
                Option::<u32>::None
            } else {
                Option::<u32>::Some(self.next_page)
            },
    {
        if self.done {
            None
        } else {
            Some(self.next_page)
        }
    }

    /// Record the page returned for index `next_page`: its users are
    /// appended, the page counter moves on by one, and an empty page ends
    /// the pagination.
    pub fn on_page(&mut self, page: Vec<User>)
        requires
            !old(self).done,
            old(self).next_page < u32::MAX,
        ensures
            final(self).next_page == old(self).next_page + 1,
            final(self).users@ == old(self).users@ + page@,
            final(self).done == (page@.len() == 0),
    {
        let mut page = page;
        self.done = page.len() == 0;
        self.next_page = self.next_page + 1;
        self.users.append(&mut page);
    }
}

/// Run the whole pagination against a fixed dataset of pages: pages are
/// consumed in order, and the run stops at the first empty page or when the
/// dataset runs out.
pub fn collect_all(pages: Vec<Vec<User>>) -> (r: Pagination)
    requires
        pages@.len() < u32::MAX,
    ensures
        r.users@ == users_collected(page_views(pages@)),
        r.done ==> r.next_page == pages_requested(page_views(pages@)),
        !r.done ==> r.next_page == pages@.len() && r.next_page == pages_requested(
            page_views(pages@),
        ),
{
    let ghost all = page_views(pages@);
    let mut rest = pages;
    let mut st = Pagination::new();
    while rest.len() > 0 && !st.done
        invariant
            st.next_page + rest@.len() == all.len() < u32::MAX,
            !st.done ==> users_collected(all) == st.users@ + users_collected(
                page_views(rest@),
            ) && pages_requested(all) == st.next_page + pages_requested(page_views(rest@)),
            st.done ==> users_collected(all) == st.users@ && pages_requested(all)
                == st.next_page,
        decreases rest@.len(),
    {
        let ghost r_before = page_views(rest@);
        let ghost users_before = st.users@;
        let page = rest.remove(0);
        proof {
            assert(page_views(rest@) =~= r_before.drop_first());
            assert(r_before[0] == page@);
        }
        st.on_page(page);
        proof {
            if page@.len() == 0 {
                assert(st.users@ =~= users_before);
            } else {
                assert(users_before + (page@ + users_collected(page_views(rest@)))
                    =~= (users_before + page@) + users_collected(page_views(rest@)));
            }
        }
    }
    proof {
        if !st.done {
            assert(page_views(rest@) =~= Seq::<Seq<User>>::empty());
            assert(users_collected(page_views(rest@)) =~= Seq::<User>::empty());
            assert(users_collected(all) =~= st.users@);
        }
    }
    st
}

} // verus!
