use wikirandom::api::ContinuationToken;
use wikirandom::decode::MembersPage;
use wikirandom::member::RawMember;
use wikirandom::paginate::Collector;

fn raw_page(i: u64) -> RawMember {
    RawMember {
        title: Some(format!("Page {}", i)),
        kind: Some("page".to_string()),
        page_id: Some(i),
        timestamp: None,
    }
}

#[test]
fn test_collector_starts_with_members_query() {
    let c = Collector::new("Category:Lists_of_colors");
    let qs = c.query().to_query_string();
    assert!(qs.contains("list=categorymembers"));
    assert!(qs.contains("cmtitle=Category:Lists_of_colors"));
    assert!(qs.contains("cmlimit=500"));
}

#[test]
fn test_collect_paginated_pages() {
    let mut c = Collector::new("Category:20th-century births");
    let first: Vec<RawMember> = (0..500).map(raw_page).collect();
    let tok = ContinuationToken {
        pairs: vec![
            ("cmcontinue".to_string(), "page|x|500".to_string()),
            ("continue".to_string(), "-||".to_string()),
        ],
    };
    let done = c.step(MembersPage { members: first, cont: Some(tok) });
    assert!(!done);
    assert!(c.query().to_query_string().contains("cmcontinue=page|x|500"));

    let second: Vec<RawMember> = (500..750).map(raw_page).collect();
    let done = c.step(MembersPage { members: second, cont: None });
    assert!(done);
    assert_eq!(c.len(), 750);
    assert!(c.len() > 500);

    let members = c.into_shuffled_members();
    assert_eq!(members.len(), 750);
    // whatever order the shuffle chose, the same members came out
    let mut ids: Vec<u64> = members.iter().map(|m| m.page_id.unwrap()).collect();
    ids.sort();
    assert_eq!(ids, (0..750).collect::<Vec<u64>>());
}

#[test]
fn test_collect_matches_reported_count() {
    // one direct subcategory entry and seventeen pages: eighteen members
    let mut c = Collector::new("Category:Lists_of_colors");
    let mut members: Vec<RawMember> = (0..17).map(raw_page).collect();
    members.push(RawMember {
        title: Some("Category:Shades of colors".to_string()),
        kind: Some("subcat".to_string()),
        page_id: Some(99),
        timestamp: None,
    });
    let done = c.step(MembersPage { members, cont: None });
    assert!(done);
    assert_eq!(c.len(), 18);
}

#[test]
fn test_shuffled_orders_differ() {
    // two runs over the same listing need not hand the members back in
    // the same order; with 100 members, equal orders are vanishingly rare
    let page = || MembersPage { members: (0..100).map(raw_page).collect(), cont: None };
    let mut a = Collector::new("Category:X");
    a.step(page());
    let mut b = Collector::new("Category:X");
    b.step(page());
    let ids = |ms: Vec<wikirandom::member::CategoryMember>| -> Vec<u64> {
        ms.iter().map(|m| m.page_id.unwrap()).collect()
    };
    let first = ids(a.into_shuffled_members());
    let second = ids(b.into_shuffled_members());
    assert_ne!(first, second);
}

#[test]
fn test_collector_classifies_entries() {
    let mut c = Collector::new("Category:X");
    let members = vec![
        raw_page(1),
        RawMember {
            title: Some("Category:Y".to_string()),
            kind: Some("subcat".to_string()),
            page_id: None,
            timestamp: None,
        },
    ];
    c.step(MembersPage { members, cont: None });
    let out = c.into_shuffled_members();
    assert_eq!(out.len(), 2);
    for m in &out {
        match &m.kind {
            wikirandom::member::MemberKind::Page => assert_eq!(m.title, "Page 1"),
            wikirandom::member::MemberKind::Subcategory => assert_eq!(m.title, "Category:Y"),
            other => panic!("unexpected kind {:?}", other),
        }
    }
}
