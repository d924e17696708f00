//! The random article resolver.
//!
//! Starting from a seed category, the resolver explores the category
//! containment tree depth first, in the randomized order the pagination
//! driver produced, until it pops an article page — the first page found
//! wins — or the frontier empties, which fails the resolution with
//! `NoMembers`.  The resolver is a step function: it decides, and the
//! caller fetches.  Each call to `next_step` either asks for one
//! category's members, hands back the resolved article, or fails; the
//! caller answers a fetch request through `supply_members` with the
//! fetched, shuffled members, which go on top of the frontier so that the
//! newest discoveries are explored first.

use vstd::prelude::*;

use crate::error::Error;
use crate::member::{CategoryMember, CategoryMemberView, MemberKindView};

verus! {

/// What the resolver decides on one step.
#[derive(Debug)]
pub enum ResolveStep {
    /// Fetch and shuffle the members of this category, then call
    /// `supply_members` with them.
    Fetch(String),
    /// The resolution succeeded with this article title.
    Done(String),
    /// The resolution failed: the frontier emptied (`NoMembers`), or a
    /// member carried an unknown kind tag (`UnknownMemberKind`).
    Failed(Error),
}

/// The resolution frontier: a stack of not-yet-explored members, and the
/// category whose members are on their way, while a fetch is pending.
pub struct Resolver {
    pub frontier: Vec<CategoryMember>,
    pub pending: Option<String>,
}

/// The spec-level image of a `Resolver`.
pub ghost struct ResolverView {
    pub frontier: Seq<CategoryMemberView>,
    pub pending: Option<Seq<char>>,
}

impl DeepView for Resolver {
    type V = ResolverView;

    open spec fn deep_view(&self) -> ResolverView {
        ResolverView { frontier: self.frontier.deep_view(), pending: self.pending.deep_view() }
    }
}

/// Whether a title already carries the category namespace label.
pub open spec fn has_category_prefix(s: Seq<char>) -> bool {
    s.len() >= 9 && s.subrange(0, 9) == "Category:"@
}

/// A seed title with the category namespace label, added if the caller
/// supplied a bare category name.
pub open spec fn with_category_prefix(s: Seq<char>) -> Seq<char> {
    if has_category_prefix(s) {
        s
    } else {
        "Category:"@ + s
    }
}

fn has_category_prefix_exec(s: &str) -> (r: bool)
    ensures
        r == has_category_prefix(s@),
{
    proof {
        reveal_strlit("Category:");
    }
    let n = s.unicode_len();
    if n < 9 {
        return false;
    }
    let r = s.get_char(0) == 'C' && s.get_char(1) == 'a' && s.get_char(2) == 't' && s.get_char(3)
        == 'e' && s.get_char(4) == 'g' && s.get_char(5) == 'o' && s.get_char(6) == 'r'
        && s.get_char(7) == 'y' && s.get_char(8) == ':';
    proof {
        if r {
            assert(s@.subrange(0, 9) =~= "Category:"@);
        } else {
            assert(s@.subrange(0, 9) != "Category:"@) by {
                if s@.subrange(0, 9) == "Category:"@ {
                    assert(s@[0] == s@.subrange(0, 9)[0]);
                    assert(s@[1] == s@.subrange(0, 9)[1]);
                    assert(s@[2] == s@.subrange(0, 9)[2]);
                    assert(s@[3] == s@.subrange(0, 9)[3]);
                    assert(s@[4] == s@.subrange(0, 9)[4]);
                    assert(s@[5] == s@.subrange(0, 9)[5]);
                    assert(s@[6] == s@.subrange(0, 9)[6]);
                    assert(s@[7] == s@.subrange(0, 9)[7]);
                    assert(s@[8] == s@.subrange(0, 9)[8]);
                }
            }
        }
    }
    r
}

/// The seed title with the category namespace label ensured.
pub fn ensure_category_prefix(category: &str) -> (r: String)
    ensures
        r@ == with_category_prefix(category@),
{
    if has_category_prefix_exec(category) {
        String::from_str(category)
    } else {
        let out = String::from_str("Category:");
        out.concat(category)
    }
}

impl Resolver {
    /// Start a resolution at a seed category.  The seed is given the
    /// category namespace label if the caller supplied a bare name, and
    /// the first step asks for that category's members.
    pub fn new(category: &str) -> (r: Resolver)
        ensures
            r.deep_view().frontier == Seq::<CategoryMemberView>::empty(),
            r.deep_view().pending == Some(with_category_prefix(category@)),
    {
        let r = Resolver { frontier: Vec::new(), pending: Some(ensure_category_prefix(category)) };
        proof {
            assert(r.frontier.deep_view() =~= Seq::<CategoryMemberView>::empty());
        }
        r
    }

    /// Answer the pending fetch request: the fetched, shuffled members go
    /// on top of the frontier, so they are explored before everything
    /// that was already there.
    pub fn supply_members(&mut self, members: Vec<CategoryMember>)
        requires
            old(self).deep_view().pending is Some,
        ensures
            final(self).deep_view().frontier == old(self).deep_view().frontier
                + members.deep_view(),
            final(self).deep_view().pending is None,
    {
        let ghost prev = self.frontier.deep_view();
        let mut ms = members;
        self.frontier.append(&mut ms);
        self.pending = None;
        proof {
            assert(self.frontier.deep_view() =~= prev + members.deep_view());
        }
    }

    /// Decide the next move.  While a fetch is pending, the same fetch is
    /// asked again.  Otherwise the top of the frontier is popped: an
    /// article page resolves the run with its title at once; a
    /// subcategory turns into the next fetch request; an unknown member
    /// kind fails the whole resolution with its tag; and an empty
    /// frontier fails it with `NoMembers`.
    pub fn next_step(&mut self) -> (s: ResolveStep)
        ensures
            ({
                let pre = old(self).deep_view();
                let post = final(self).deep_view();
                match pre.pending {
                    Some(c) => post == pre && (s matches ResolveStep::Fetch(t) && t@ == c),
                    None => if pre.frontier.len() == 0 {
                        post == pre && (s matches ResolveStep::Failed(e) && e is NoMembers)
                    } else {
                        let m = pre.frontier.last();
                        post.frontier == pre.frontier.drop_last() && match m.kind {
                            MemberKindView::Page => post.pending is None && (
                            s matches ResolveStep::Done(t) && t@ == m.title),
                            MemberKindView::Subcategory => post.pending == Some(m.title) && (
                            s matches ResolveStep::Fetch(t) && t@ == m.title),
                            MemberKindView::Unknown(tag) => post.pending is None && (
                            s matches ResolveStep::Failed(e) && e matches Error::UnknownMemberKind(
                                t,
                            ) && t@ == tag),
                        }
                    },
                }
            }),
    {
        match &self.pending {
            Some(c) => {
                return ResolveStep::Fetch(c.clone());
            },
            None => {},
        }
        let popped = self.frontier.pop();
        match popped {
            None => ResolveStep::Failed(Error::NoMembers),
            Some(m) => {
                match m.kind {
                    crate::member::MemberKind::Page => ResolveStep::Done(m.title),
                    crate::member::MemberKind::Subcategory => {
                        self.pending = Some(m.title.clone());
                        ResolveStep::Fetch(m.title)
                    },
                    crate::member::MemberKind::Unknown(tag) => ResolveStep::Failed(
                        Error::UnknownMemberKind(tag),
                    ),
                }
            },
        }
    }
}

/// The outcome of a whole resolution run over the spec model.
pub ghost enum RunOutcome {
    /// The run popped an article page with this title.
    Article(Seq<char>),
    /// The frontier emptied without an article.
    NoMembers,
    /// The run popped a member of an unknown kind with this tag.
    UnknownKind(Seq<char>),
    /// The run reached a subcategory but no reply was left for it.
    NeedsReply,
    /// The step bound ran out.
    OutOfFuel,
}

/// The resolution loop over the spec model: pop from the end of the
/// frontier; a page wins at once, a subcategory's fetched members — the
/// next reply — are appended on top, an unknown kind fails.  `fuel`
/// bounds the number of subcategory expansions.
pub open spec fn resolve_run(
    frontier: Seq<CategoryMemberView>,
    replies: Seq<Seq<CategoryMemberView>>,
    fuel: nat,
) -> RunOutcome
    decreases fuel,
{
    if frontier.len() == 0 {
        RunOutcome::NoMembers
    } else if fuel == 0 {
        RunOutcome::OutOfFuel
    } else {
        let m = frontier.last();
        match m.kind {
            MemberKindView::Page => RunOutcome::Article(m.title),
            MemberKindView::Subcategory => if replies.len() == 0 {
                RunOutcome::NeedsReply
            } else {
                resolve_run(frontier.drop_last() + replies[0], replies.drop_first(), (fuel
                    - 1) as nat)
            },
            MemberKindView::Unknown(t) => RunOutcome::UnknownKind(t),
        }
    }
}

/// Whether some member of a listing is an article page with this title.
pub open spec fn has_page_titled(ms: Seq<CategoryMemberView>, t: Seq<char>) -> bool {
    exists|i: int| 0 <= i < ms.len() && (#[trigger] ms[i]).kind is Page && ms[i].title == t
}

/// Law: a resolved article is sound — whatever order the shuffles chose
/// and however deep the walk went, its title is a page-kind member of one
/// of the fetched listings: of the seed's own members or of one of the
/// subcategory replies.
pub proof fn lemma_resolved_article_is_reachable(
    frontier: Seq<CategoryMemberView>,
    replies: Seq<Seq<CategoryMemberView>>,
    fuel: nat,
    t: Seq<char>,
)
    requires
        resolve_run(frontier, replies, fuel) == RunOutcome::Article(t),
    ensures
        has_page_titled(frontier, t) || exists|i: int|
            0 <= i < replies.len() && has_page_titled(#[trigger] replies[i], t),
    decreases fuel,
{
    let m = frontier.last();
    match m.kind {
        MemberKindView::Page => {
            assert(frontier[frontier.len() - 1].kind is Page);
            assert(has_page_titled(frontier, t));
        },
        MemberKindView::Subcategory => {
            let merged = frontier.drop_last() + replies[0];
            lemma_resolved_article_is_reachable(merged, replies.drop_first(), (fuel - 1) as nat, t);
            if has_page_titled(merged, t) {
                let i = choose|i: int|
                    0 <= i < merged.len() && (#[trigger] merged[i]).kind is Page && merged[i].title
                        == t;
                if i < frontier.len() - 1 {
                    assert(frontier[i].kind is Page && frontier[i].title == t);
                    assert(has_page_titled(frontier, t));
                } else {
                    assert(replies[0][i - (frontier.len() - 1)].kind is Page);
                    assert(has_page_titled(replies[0], t));
                }
            } else {
                let j = choose|j: int|
                    0 <= j < replies.drop_first().len() && has_page_titled(
                        #[trigger] replies.drop_first()[j],
                        t,
                    );
                assert(replies.drop_first()[j] == replies[j + 1]);
                assert(has_page_titled(replies[j + 1], t));
            }
        },
        MemberKindView::Unknown(_) => {},
    }
}

/// Whether some member of a listing is an article page.
pub open spec fn has_page(ms: Seq<CategoryMemberView>) -> bool {
    exists|i: int| 0 <= i < ms.len() && (#[trigger] ms[i]).kind is Page
}

/// Law: a category with at least one direct page member never resolves to
/// `NoMembers`: an unexplored page can only leave the frontier by being
/// popped, which ends the run with its title.
pub proof fn lemma_page_member_prevents_no_members(
    frontier: Seq<CategoryMemberView>,
    replies: Seq<Seq<CategoryMemberView>>,
    fuel: nat,
)
    requires
        has_page(frontier),
    ensures
        resolve_run(frontier, replies, fuel) != RunOutcome::NoMembers,
    decreases fuel,
{
    if frontier.len() == 0 || fuel == 0 {
    } else {
        let m = frontier.last();
        match m.kind {
            MemberKindView::Page => {},
            MemberKindView::Subcategory => {
                if replies.len() > 0 {
                    let merged = frontier.drop_last() + replies[0];
                    let i = choose|i: int|
                        0 <= i < frontier.len() && (#[trigger] frontier[i]).kind is Page;
                    assert(i < frontier.len() - 1);
                    assert(merged[i] == frontier[i]);
                    assert(has_page(merged));
                    lemma_page_member_prevents_no_members(
                        merged,
                        replies.drop_first(),
                        (fuel - 1) as nat,
                    );
                }
            },
            MemberKindView::Unknown(_) => {},
        }
    }
}

/// Law: an empty or nonexistent category yields `NoMembers` — a run whose
/// frontier is empty, as it is after the seed's listing came back with no
/// members, fails that way whatever replies follow.
pub proof fn lemma_empty_frontier_yields_no_members(
    replies: Seq<Seq<CategoryMemberView>>,
    fuel: nat,
)
    ensures
        resolve_run(Seq::<CategoryMemberView>::empty(), replies, fuel) == RunOutcome::NoMembers,
{
}

} // verus!
