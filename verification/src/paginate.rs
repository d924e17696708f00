//! The pagination driver for category membership listings.
//!
//! One listing can span many pages.  The driver owns the query
//! descriptor and the accumulated members: the caller sends the current
//! query, decodes the body, and feeds each decoded page to `step`; the
//! driver merges the page's members into its accumulator and advances the
//! query by the continuation block, until the server omits the block,
//! which is the only completion signal.

use vstd::prelude::*;

use crate::api::{category_members_params, category_members_query, merge_params_spec,
    QueryDescriptor};
use crate::decode::MembersPage;
use crate::member::{classify_member_spec, classify_members, CategoryMember, CategoryMemberView,
    RawMemberView};
use crate::url::percent_encode;
use rand::seq::SliceRandom;
use vstd::string::StringSliceAdditionalSpecFns;

verus! {

/// The classified members of one decoded listing page, in page order.
pub open spec fn classified_page_members(ms: Seq<RawMemberView>) -> Seq<CategoryMemberView> {
    ms.map_values(|m: RawMemberView| classify_member_spec(m))
}

/// The members a whole run of the driver accumulates over a sequence of
/// decoded pages: each page's classified members, concatenated in page
/// order.
pub open spec fn collected_members(pages: Seq<crate::decode::MembersPageView>) -> Seq<
    CategoryMemberView,
>
    decreases pages.len(),
{
    if pages.len() == 0 {
        Seq::empty()
    } else {
        classified_page_members(pages[0].members) + collected_members(pages.drop_first())
    }
}

/// Law: pagination merges every page into one list — taking in one more
/// page extends the accumulated members by exactly that page's classified
/// members, at the end, as each call to `step` does.
pub proof fn lemma_collected_members_snoc(
    pages: Seq<crate::decode::MembersPageView>,
    page: crate::decode::MembersPageView,
)
    ensures
        collected_members(pages.push(page)) == collected_members(pages)
            + classified_page_members(page.members),
    decreases pages.len(),
{
    if pages.len() == 0 {
        let single = pages.push(page);
        assert(single.drop_first() =~= Seq::<crate::decode::MembersPageView>::empty());
        assert(single[0] == page);
        assert(collected_members(single) == classified_page_members(page.members)
            + collected_members(Seq::<crate::decode::MembersPageView>::empty()));
        assert(collected_members(single) =~= classified_page_members(page.members));
        assert(collected_members(pages) + classified_page_members(page.members)
            =~= classified_page_members(page.members));
    } else {
        assert(pages.push(page).drop_first() =~= pages.drop_first().push(page));
        assert(pages.push(page)[0] == pages[0]);
        lemma_collected_members_snoc(pages.drop_first(), page);
        assert(collected_members(pages.push(page)) =~= collected_members(pages)
            + classified_page_members(page.members));
    }
}

/// The pagination driver for one category's membership listing.
pub struct Collector {
    pub query: QueryDescriptor,
    pub members: Vec<CategoryMember>,
}

/// The spec-level image of a `Collector`.
pub ghost struct CollectorView {
    pub query: Seq<crate::api::ParamView>,
    pub members: Seq<CategoryMemberView>,
}

impl DeepView for Collector {
    type V = CollectorView;

    open spec fn deep_view(&self) -> CollectorView {
        CollectorView { query: self.query.deep_view(), members: self.members.deep_view() }
    }
}

/// Relies on `rand`'s `SliceRandom::shuffle` with `thread_rng`: it
/// permutes the vector in place, so whatever order comes out, the same
/// members come out.
#[verifier::external_body]
fn shuffle_members(v: &mut Vec<CategoryMember>)
    ensures
        final(v).deep_view().to_multiset() == old(v).deep_view().to_multiset(),
        final(v)@.len() == old(v)@.len(),
{
    v.shuffle(&mut rand::thread_rng());
}

impl Collector {
    /// Start collecting the members of one category: the first query
    /// lists that category's members from the beginning.
    pub fn new(category: &str) -> (c: Collector)
        ensures
            c.deep_view().query == category_members_params(
                percent_encode(category.spec_bytes()),
            ),
            c.deep_view().members == Seq::<CategoryMemberView>::empty(),
    {
        let c = Collector { query: category_members_query(category), members: Vec::new() };
        proof {
            assert(c.members.deep_view() =~= Seq::<CategoryMemberView>::empty());
        }
        c
    }

    /// The query to send for the next page of the listing.
    pub fn query(&self) -> (q: &QueryDescriptor)
        ensures
            q.deep_view() == self.deep_view().query,
    {
        &self.query
    }

    /// Take in one decoded page: its members are classified and appended
    /// to the accumulator, and its continuation block, if any, is merged
    /// into the query.  The listing is complete exactly when the page
    /// carries no continuation block.
    pub fn step(&mut self, page: MembersPage) -> (done: bool)
        ensures
            final(self).deep_view().members == old(self).deep_view().members
                + classified_page_members(page.deep_view().members),
            done <==> page.cont is None,
            final(self).deep_view().query == (match page.deep_view().cont {
                Some(tok) => merge_params_spec(old(self).deep_view().query, tok),
                None => old(self).deep_view().query,
            }),
    {
        let ghost prev = self.deep_view().members;
        let mut classified = classify_members(&page.members);
        let ghost cls = classified.deep_view();
        self.members.append(&mut classified);
        proof {
            assert(self.members.deep_view() =~= prev + cls);
        }
        match page.cont {
            Some(tok) => {
                self.query.continue_query(&tok);
                false
            },
            None => true,
        }
    }

    /// How many members the accumulator holds so far.
    pub fn len(&self) -> (n: usize)
        ensures
            n == self.deep_view().members.len(),
    {
        self.members.len()
    }

    /// Finish the listing: hand back every collected member, in a fresh
    /// random order, ready to be explored as a stack.
    pub fn into_shuffled_members(self) -> (ms: Vec<CategoryMember>)
        ensures
            ms.deep_view().to_multiset() == self.deep_view().members.to_multiset(),
            ms@.len() == self.deep_view().members.len(),
    {
        let Collector { query: _, members: mut ms } = self;
        shuffle_members(&mut ms);
        ms
    }
}

} // verus!
