use wikirandom::error::Error;
use wikirandom::member::{classify_member, CategoryMember, MemberKind, RawMember};
use wikirandom::resolve::{ensure_category_prefix, Resolver, ResolveStep};

fn page(t: &str) -> CategoryMember {
    CategoryMember {
        title: t.to_string(),
        kind: MemberKind::Page,
        page_id: None,
        timestamp: None,
    }
}

fn subcat(t: &str) -> CategoryMember {
    CategoryMember {
        title: t.to_string(),
        kind: MemberKind::Subcategory,
        page_id: None,
        timestamp: None,
    }
}

fn expect_fetch(r: &mut Resolver) -> String {
    match r.next_step() {
        ResolveStep::Fetch(c) => c,
        other => panic!("expected a fetch request, got {:?}", other),
    }
}

#[test]
fn test_resolve_empty_category_no_members() {
    let mut r = Resolver::new("aasgesgagaaex");
    assert_eq!(expect_fetch(&mut r), "Category:aasgesgagaaex");
    r.supply_members(Vec::new());
    match r.next_step() {
        ResolveStep::Failed(e) => assert_eq!(e, Error::NoMembers),
        other => panic!("expected NoMembers, got {:?}", other),
    }
}

#[test]
fn test_resolve_direct_page() {
    let mut r = Resolver::new("War");
    assert_eq!(expect_fetch(&mut r), "Category:War");
    r.supply_members(vec![page("Battle")]);
    match r.next_step() {
        ResolveStep::Done(t) => assert_eq!(t, "Battle"),
        other => panic!("expected an article, got {:?}", other),
    }
}

#[test]
fn test_resolve_descends_into_newest_subcategory() {
    let mut r = Resolver::new("Colors");
    assert_eq!(expect_fetch(&mut r), "Category:Colors");
    r.supply_members(vec![page("Color"), subcat("Category:Shades")]);
    // the frontier is a stack: the entry supplied last is explored first
    assert_eq!(expect_fetch(&mut r), "Category:Shades");
    r.supply_members(vec![page("Azure")]);
    match r.next_step() {
        ResolveStep::Done(t) => assert_eq!(t, "Azure"),
        other => panic!("expected an article, got {:?}", other),
    }
}

#[test]
fn test_resolve_falls_back_after_empty_subcategory() {
    let mut r = Resolver::new("Colors");
    expect_fetch(&mut r);
    r.supply_members(vec![page("Color"), subcat("Category:Shades")]);
    assert_eq!(expect_fetch(&mut r), "Category:Shades");
    r.supply_members(Vec::new());
    match r.next_step() {
        ResolveStep::Done(t) => assert_eq!(t, "Color"),
        other => panic!("expected the remaining page, got {:?}", other),
    }
}

#[test]
fn test_resolve_unknown_kind_fails() {
    let mut r = Resolver::new("Colors");
    expect_fetch(&mut r);
    r.supply_members(vec![CategoryMember {
        title: "Weird".to_string(),
        kind: MemberKind::Unknown("file".to_string()),
        page_id: None,
        timestamp: None,
    }]);
    match r.next_step() {
        ResolveStep::Failed(Error::UnknownMemberKind(tag)) => assert_eq!(tag, "file"),
        other => panic!("expected an unknown-kind failure, got {:?}", other),
    }
}

#[test]
fn test_resolve_repeats_fetch_while_pending() {
    let mut r = Resolver::new("War");
    assert_eq!(expect_fetch(&mut r), "Category:War");
    assert_eq!(expect_fetch(&mut r), "Category:War");
}

#[test]
fn test_ensure_category_prefix() {
    assert_eq!(ensure_category_prefix("War"), "Category:War");
    assert_eq!(ensure_category_prefix("Category:War"), "Category:War");
    assert_eq!(ensure_category_prefix(""), "Category:");
    assert_eq!(ensure_category_prefix("Categor"), "Category:Categor");
}

#[test]
fn test_classify_member_kinds() {
    let page = classify_member(&RawMember {
        title: Some("Azure".to_string()),
        kind: Some("page".to_string()),
        page_id: Some(1),
        timestamp: None,
    });
    assert_eq!(page.title, "Azure");
    assert!(matches!(page.kind, MemberKind::Page));

    let sub = classify_member(&RawMember {
        title: Some("Category:Shades".to_string()),
        kind: Some("subcat".to_string()),
        page_id: None,
        timestamp: None,
    });
    assert!(matches!(sub.kind, MemberKind::Subcategory));

    let odd = classify_member(&RawMember {
        title: None,
        kind: Some("file".to_string()),
        page_id: None,
        timestamp: None,
    });
    assert_eq!(odd.title, "");
    match odd.kind {
        MemberKind::Unknown(tag) => assert_eq!(tag, "file"),
        other => panic!("expected an unknown kind, got {:?}", other),
    }

    let absent = classify_member(&RawMember {
        title: Some("X".to_string()),
        kind: None,
        page_id: None,
        timestamp: None,
    });
    match absent.kind {
        MemberKind::Unknown(tag) => assert_eq!(tag, ""),
        other => panic!("expected an unknown kind, got {:?}", other),
    }
}
