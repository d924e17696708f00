//! Category listing entries.
//!
//! The decoder hands over each entry as the server sent it, every field
//! possibly absent.  Classification then gives each entry a definite
//! member kind: an article page, a subcategory, or an unknown tag kept
//! verbatim, never silently dropped.

use vstd::prelude::*;

verus! {

/// One entry of a category listing as it came off the wire.
#[derive(Debug)]
pub struct RawMember {
    pub title: Option<String>,
    pub kind: Option<String>,
    pub page_id: Option<u64>,
    pub timestamp: Option<String>,
}

/// The spec-level image of a `RawMember`.
pub ghost struct RawMemberView {
    pub title: Option<Seq<char>>,
    pub kind: Option<Seq<char>>,
    pub page_id: Option<u64>,
    pub timestamp: Option<Seq<char>>,
}

impl DeepView for RawMember {
    type V = RawMemberView;

    open spec fn deep_view(&self) -> RawMemberView {
        RawMemberView {
            title: self.title.deep_view(),
            kind: self.kind.deep_view(),
            page_id: self.page_id,
            timestamp: self.timestamp.deep_view(),
        }
    }
}

/// What a listing entry is: an article page, a subcategory, or a tag the
/// library does not know, kept verbatim.
#[derive(Debug)]
pub enum MemberKind {
    Page,
    Subcategory,
    Unknown(String),
}

/// The spec-level image of a `MemberKind`.
pub ghost enum MemberKindView {
    Page,
    Subcategory,
    Unknown(Seq<char>),
}

impl DeepView for MemberKind {
    type V = MemberKindView;

    open spec fn deep_view(&self) -> MemberKindView {
        match self {
            MemberKind::Page => MemberKindView::Page,
            MemberKind::Subcategory => MemberKindView::Subcategory,
            MemberKind::Unknown(t) => MemberKindView::Unknown(t@),
        }
    }
}

/// One classified entry of a category listing: an absent title stands as
/// the empty string, and the member kind is always present.
#[derive(Debug)]
pub struct CategoryMember {
    pub title: String,
    pub kind: MemberKind,
    pub page_id: Option<u64>,
    pub timestamp: Option<String>,
}

/// The spec-level image of a `CategoryMember`.
pub ghost struct CategoryMemberView {
    pub title: Seq<char>,
    pub kind: MemberKindView,
    pub page_id: Option<u64>,
    pub timestamp: Option<Seq<char>>,
}

impl DeepView for CategoryMember {
    type V = CategoryMemberView;

    open spec fn deep_view(&self) -> CategoryMemberView {
        CategoryMemberView {
            title: self.title@,
            kind: self.kind.deep_view(),
            page_id: self.page_id,
            timestamp: self.timestamp.deep_view(),
        }
    }
}

/// The member kind a raw tag classifies to: `page` and `subcat` are the
/// two known tags; anything else, an absent tag included, stays unknown.
pub open spec fn classify_kind_spec(tag: Option<Seq<char>>) -> MemberKindView {
    match tag {
        Some(t) => if t == "page"@ {
            MemberKindView::Page
        } else if t == "subcat"@ {
            MemberKindView::Subcategory
        } else {
            MemberKindView::Unknown(t)
        },
        None => MemberKindView::Unknown(Seq::empty()),
    }
}

/// The classified image of one raw listing entry.
pub open spec fn classify_member_spec(m: RawMemberView) -> CategoryMemberView {
    CategoryMemberView {
        title: match m.title {
            Some(t) => t,
            None => Seq::empty(),
        },
        kind: classify_kind_spec(m.kind),
        page_id: m.page_id,
        timestamp: m.timestamp,
    }
}

fn clone_opt_string(o: &Option<String>) -> (r: Option<String>)
    ensures
        r.deep_view() == o.deep_view(),
{
    match o {
        Some(s) => Some(s.clone()),
        None => None,
    }
}

/// Classify one raw listing entry.
pub fn classify_member(m: &RawMember) -> (c: CategoryMember)
    ensures
        c.deep_view() == classify_member_spec(m.deep_view()),
{
    let title = match &m.title {
        Some(t) => t.clone(),
        None => String::new(),
    };
    let kind = match &m.kind {
        Some(t) => {
            if *t == String::from_str("page") {
                MemberKind::Page
            } else if *t == String::from_str("subcat") {
                MemberKind::Subcategory
            } else {
                MemberKind::Unknown(t.clone())
            }
        },
        None => MemberKind::Unknown(String::new()),
    };
    CategoryMember { title, kind, page_id: m.page_id, timestamp: clone_opt_string(&m.timestamp) }
}

/// Classify a whole page of raw listing entries, in order.
pub fn classify_members(ms: &Vec<RawMember>) -> (cs: Vec<CategoryMember>)
    ensures
        cs.deep_view() == ms.deep_view().map_values(|m: RawMemberView| classify_member_spec(m)),
{
    let mut cs: Vec<CategoryMember> = Vec::new();
    let mut i: usize = 0;
    while i < ms.len()
        invariant
            i <= ms@.len(),
            cs.deep_view() =~= ms.deep_view().subrange(0, i as int).map_values(
                |m: RawMemberView| classify_member_spec(m),
            ),
        decreases ms@.len() - i,
    {
        let ghost prev = cs.deep_view();
        let c = classify_member(&ms[i]);
        cs.push(c);
        proof {
            assert(cs.deep_view() =~= prev.push(c.deep_view()));
            assert(ms.deep_view()[i as int] == ms@[i as int].deep_view());
        }
        i = i + 1;
    }
    proof {
        assert(ms.deep_view().subrange(0, ms.deep_view().len() as int) =~= ms.deep_view());
    }
    cs
}

} // verus!
